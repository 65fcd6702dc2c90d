use aicheck::detector::wav_metadata::parse_wav_full;

fn chunk(id: &[u8; 4], body: &[u8]) -> Vec<u8> {
    let mut c = id.to_vec();
    c.extend_from_slice(&(body.len() as u32).to_le_bytes());
    c.extend_from_slice(body);
    if body.len() % 2 == 1 {
        c.push(0);
    }
    c
}

fn fmt_body(channels: u16, rate: u32, bits: u16) -> Vec<u8> {
    let mut b = vec![1, 0];
    b.extend_from_slice(&channels.to_le_bytes());
    b.extend_from_slice(&rate.to_le_bytes());
    b.extend_from_slice(&(rate * 2).to_le_bytes());
    b.extend_from_slice(&2u16.to_le_bytes());
    b.extend_from_slice(&bits.to_le_bytes());
    b
}

fn riff(chunks: &[Vec<u8>]) -> Vec<u8> {
    let mut d = b"RIFF\0\0\0\0WAVE".to_vec();
    for c in chunks {
        d.extend_from_slice(c);
    }
    d
}

#[test]
fn parses_format_and_data() {
    let d = riff(&[chunk(b"LIST", b"abc"), chunk(b"fmt ", &fmt_body(1, 16000, 16)), chunk(b"data", &[1, 2, 3, 4])]);
    let w = parse_wav_full(&d).unwrap();
    assert_eq!(w.fmt.channels, 1);
    assert_eq!(w.fmt.sample_rate, 16000);
    assert_eq!(w.fmt.bits_per_sample, 16);
    assert_eq!(w.pcm_end - w.pcm_start, 4);
    assert_eq!(&d[w.pcm_start..w.pcm_end], &[1, 2, 3, 4]);
}

#[test]
fn data_cut_at_end_of_file() {
    let mut d = riff(&[chunk(b"fmt ", &fmt_body(2, 44100, 16))]);
    d.extend_from_slice(b"data");
    d.extend_from_slice(&1000u32.to_le_bytes());
    d.extend_from_slice(&[9, 9]);
    let w = parse_wav_full(&d).unwrap();
    assert_eq!(w.pcm_end, d.len());
    assert_eq!(w.fmt.channels, 2);
}

#[test]
fn not_wav() {
    assert!(parse_wav_full(b"not a wav").is_none());
    assert!(parse_wav_full(&riff(&[chunk(b"data", &[0, 0])])).is_none());
}
