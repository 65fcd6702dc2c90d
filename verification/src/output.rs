//! What the reports of a run add up to, and how a report's assessment reads.
use vstd::prelude::*;

use crate::detector::{report_consistent, Confidence, FileReport};

verus! {

/// Counts over a batch of reports.
#[derive(Debug, Clone, Copy, PartialEq, Eq, Structural)]
pub struct Summary {
    pub total: usize,
    pub ai_detected: usize,
    pub high: usize,
    pub medium: usize,
    pub low: usize,
}

/// Number of reports that find the file AI-generated.
pub open spec fn count_ai(s: Seq<FileReport>) -> nat
    decreases s.len(),
{
    if s.len() == 0 {
        0
    } else {
        count_ai(s.drop_last()) + if s.last().ai_generated {
            1nat
        } else {
            0nat
        }
    }
}

/// Number of reports whose overall confidence is `c`.
pub open spec fn count_confidence(s: Seq<FileReport>, c: Confidence) -> nat
    decreases s.len(),
{
    if s.len() == 0 {
        0
    } else {
        count_confidence(s.drop_last(), c) + if s.last().overall_confidence == c {
            1nat
        } else {
            0nat
        }
    }
}

proof fn lemma_counts_bounded(s: Seq<FileReport>)
    ensures
        count_ai(s) <= s.len(),
        count_confidence(s, Confidence::High) + count_confidence(s, Confidence::Medium) + count_confidence(
            s,
            Confidence::Low,
        ) <= s.len(),
    decreases s.len(),
{
    if s.len() > 0 {
        lemma_counts_bounded(s.drop_last());
    }
}

/// Summarizes a batch of reports: how many there are, how many find the file
/// AI-generated, and how many reach each confidence tier.
pub fn make_summary(reports: &[FileReport]) -> (r: Summary)
    ensures
        r.total == reports@.len(),
        r.ai_detected == count_ai(reports@),
        r.high == count_confidence(reports@, Confidence::High),
        r.medium == count_confidence(reports@, Confidence::Medium),
        r.low == count_confidence(reports@, Confidence::Low),
{
    let mut ai_detected: usize = 0;
    let mut high: usize = 0;
    let mut medium: usize = 0;
    let mut low: usize = 0;
    let mut i: usize = 0;
    while i < reports.len()
        invariant
            i <= reports@.len(),
            ai_detected == count_ai(reports@.take(i as int)),
            high == count_confidence(reports@.take(i as int), Confidence::High),
            medium == count_confidence(reports@.take(i as int), Confidence::Medium),
            low == count_confidence(reports@.take(i as int), Confidence::Low),
        decreases reports.len() - i,
    {
        let ghost t = reports@.take(i + 1);
        assert(t.drop_last() =~= reports@.take(i as int));
        proof {
            lemma_counts_bounded(t);
        }
        let r = &reports[i];
        if r.ai_generated {
            ai_detected = ai_detected + 1;
        }
        match r.overall_confidence {
            Confidence::High => high = high + 1,
            Confidence::Medium => medium = medium + 1,
            Confidence::Low => low = low + 1,
            Confidence::Absent => {},
        }
        i = i + 1;
    }
    assert(reports@.take(reports@.len() as int) =~= reports@);
    Summary { total: reports.len(), ai_detected, high, medium, low }
}

/// Each report that finds its file AI-generated is counted in exactly one of
/// the tiers HIGH, MEDIUM and LOW, so over consistent reports the tiers add
/// up to the number of AI-generated files, which is at most the total.
pub proof fn lemma_summary_tiers_partition(s: Seq<FileReport>)
    requires
        forall|i: int| 0 <= i < s.len() ==> report_consistent(#[trigger] s[i]),
    ensures
        count_confidence(s, Confidence::High) + count_confidence(s, Confidence::Medium) + count_confidence(
            s,
            Confidence::Low,
        ) == count_ai(s),
        count_ai(s) <= s.len(),
    decreases s.len(),
{
    lemma_counts_bounded(s);
    if s.len() > 0 {
        let p = s.drop_last();
        assert forall|i: int| 0 <= i < p.len() implies report_consistent(#[trigger] p[i]) by {
            assert(p[i] == s[i]);
        }
        lemma_summary_tiers_partition(p);
        assert(report_consistent(s[s.len() - 1]));
    }
}

/// The wording of a report's assessment.
pub open spec fn assessment_spec(ai_generated: bool, c: Confidence) -> Seq<char> {
    if !ai_generated {
        "Not detected as AI-generated"@
    } else {
        match c {
            Confidence::High => "AI-generated"@,
            Confidence::Medium => "Likely AI-generated"@,
            Confidence::Low => "Possibly AI-generated"@,
            Confidence::Absent => "Unknown"@,
        }
    }
}

/// How a report's assessment reads: by its overall confidence when the file is
/// found AI-generated.
pub fn assessment_label(ai_generated: bool, c: Confidence) -> (s: &'static str)
    ensures
        s@ == assessment_spec(ai_generated, c),
{
    if !ai_generated {
        "Not detected as AI-generated"
    } else {
        match c {
            Confidence::High => "AI-generated",
            Confidence::Medium => "Likely AI-generated",
            Confidence::Low => "Possibly AI-generated",
            Confidence::Absent => "Unknown",
        }
    }
}

/// The exit code of a run: 0 when some file shows AI signals, otherwise 2
/// when some file could not be analyzed, otherwise 1.
pub open spec fn exit_code_spec(s: Seq<FileReport>) -> i32 {
    if exists|i: int| 0 <= i < s.len() && s[i].ai_generated {
        0
    } else if exists|i: int| 0 <= i < s.len() && s[i].error is Some {
        2
    } else {
        1
    }
}

/// The exit code of a run over the given reports.
pub fn exit_code(reports: &[FileReport]) -> (code: i32)
    ensures
        code == exit_code_spec(reports@),
{
    let mut any_ai = false;
    let mut any_error = false;
    let mut i: usize = 0;
    while i < reports.len()
        invariant
            i <= reports@.len(),
            any_ai == exists|j: int| 0 <= j < i && reports@[j].ai_generated,
            any_error == exists|j: int| 0 <= j < i && reports@[j].error is Some,
        decreases reports.len() - i,
    {
        let r = &reports[i];
        if r.ai_generated {
            any_ai = true;
        }
        if r.error.is_some() {
            any_error = true;
        }
        i = i + 1;
    }
    if any_ai {
        0
    } else if any_error {
        2
    } else {
        1
    }
}

} // verus!
