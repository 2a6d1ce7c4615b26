//! Parsing of the classification response: a line-oriented, best-effort
//! extraction of five labeled fields from arbitrary surrounding prose.
//! Parsing is total — malformed input leaves fields at their defaults and
//! never fails.

use vstd::prelude::*;
use crate::types::{ContentAnalysis, ContentAnalysisView};
use crate::text::{
    trim_spec, trim_str, starts_with_spec, starts_with_str, split_spec, split_str, eq_str,
};

verus! {

/// The value carried by a labeled line: everything after the label,
/// trimmed.
pub open spec fn label_value(t: Seq<char>, label: Seq<char>) -> Seq<char> {
    trim_spec(t.subrange(label.len() as int, t.len() as int))
}

/// Topic pieces trimmed, empty entries discarded, order kept.
pub open spec fn cleaned_topics(pieces: Seq<Seq<char>>) -> Seq<Seq<char>>
    decreases pieces.len(),
{
    if pieces.len() == 0 {
        Seq::empty()
    } else {
        let rest = cleaned_topics(pieces.drop_last());
        let t = trim_spec(pieces.last());
        if t.len() == 0 {
            rest
        } else {
            rest.push(t)
        }
    }
}

/// The topic list encoded by a `RESEARCH_TOPICS` value: split on commas,
/// each entry trimmed, empty entries discarded.
pub open spec fn topics_of(value: Seq<char>) -> Seq<Seq<char>> {
    cleaned_topics(split_spec(value, ','))
}

/// The effect of one response line on the analysis built so far: a
/// recognized label assigns its field, anything else changes nothing. A
/// `WEBPAGE_URL` value of `none` or `unknown` is treated as absent.
pub open spec fn apply_line(a: ContentAnalysisView, line: Seq<char>) -> ContentAnalysisView {
    let t = trim_spec(line);
    if starts_with_spec(t, "CONTENT_TYPE:"@) {
        ContentAnalysisView {
            content_type: label_value(t, "CONTENT_TYPE:"@),
            webpage_url: a.webpage_url,
            research_topics: a.research_topics,
            user_intent: a.user_intent,
            follow_up: a.follow_up,
        }
    } else if starts_with_spec(t, "WEBPAGE_URL:"@) {
        let v = label_value(t, "WEBPAGE_URL:"@);
        if v == "none"@ || v == "unknown"@ {
            a
        } else {
            ContentAnalysisView {
                content_type: a.content_type,
                webpage_url: Some(v),
                research_topics: a.research_topics,
                user_intent: a.user_intent,
                follow_up: a.follow_up,
            }
        }
    } else if starts_with_spec(t, "RESEARCH_TOPICS:"@) {
        ContentAnalysisView {
            content_type: a.content_type,
            webpage_url: a.webpage_url,
            research_topics: topics_of(label_value(t, "RESEARCH_TOPICS:"@)),
            user_intent: a.user_intent,
            follow_up: a.follow_up,
        }
    } else if starts_with_spec(t, "USER_INTENT:"@) {
        ContentAnalysisView {
            content_type: a.content_type,
            webpage_url: a.webpage_url,
            research_topics: a.research_topics,
            user_intent: label_value(t, "USER_INTENT:"@),
            follow_up: a.follow_up,
        }
    } else if starts_with_spec(t, "FOLLOW_UP:"@) {
        ContentAnalysisView {
            content_type: a.content_type,
            webpage_url: a.webpage_url,
            research_topics: a.research_topics,
            user_intent: a.user_intent,
            follow_up: label_value(t, "FOLLOW_UP:"@),
        }
    } else {
        a
    }
}

/// The analysis after the given lines have been processed in order,
/// starting from the all-default analysis.
pub open spec fn analysis_after(lines: Seq<Seq<char>>) -> ContentAnalysisView
    decreases lines.len(),
{
    if lines.len() == 0 {
        ContentAnalysisView::default_spec()
    } else {
        apply_line(analysis_after(lines.drop_last()), lines.last())
    }
}

/// The analysis extracted from a whole response text.
pub open spec fn parse_spec(text: Seq<char>) -> ContentAnalysisView {
    analysis_after(split_spec(text, '\n'))
}

/// The (trimmed) line carries the given label.
pub open spec fn matches_label(line: Seq<char>, label: Seq<char>) -> bool {
    starts_with_spec(trim_spec(line), label)
}

/// A line no recognized label claims.
pub open spec fn line_unrecognized(line: Seq<char>) -> bool {
    !matches_label(line, "CONTENT_TYPE:"@) && !matches_label(line, "WEBPAGE_URL:"@)
        && !matches_label(line, "RESEARCH_TOPICS:"@) && !matches_label(line, "USER_INTENT:"@)
        && !matches_label(line, "FOLLOW_UP:"@)
}

/// Text none of whose lines carries a recognized label parses to the
/// all-default analysis, whatever prose it holds.
pub proof fn lemma_unlabeled_lines_default(lines: Seq<Seq<char>>)
    requires
        forall|j: int| 0 <= j < lines.len() ==> line_unrecognized(#[trigger] lines[j]),
    ensures
        analysis_after(lines) == ContentAnalysisView::default_spec(),
    decreases lines.len(),
{
    if lines.len() > 0 {
        lemma_unlabeled_lines_default(lines.drop_last());
    }
}

/// If exactly one line carries the `CONTENT_TYPE` label, the parsed
/// content type is that line's value — wherever the line stands and
/// whatever else surrounds it.
pub proof fn lemma_single_content_type(lines: Seq<Seq<char>>, k: int)
    requires
        0 <= k < lines.len(),
        matches_label(lines[k], "CONTENT_TYPE:"@),
        forall|j: int| 0 <= j < lines.len() && j != k ==> !matches_label(
            #[trigger] lines[j],
            "CONTENT_TYPE:"@,
        ),
    ensures
        analysis_after(lines).content_type == label_value(trim_spec(lines[k]), "CONTENT_TYPE:"@),
    decreases lines.len(),
{
    if k < lines.len() - 1 {
        lemma_single_content_type(lines.drop_last(), k);
    }
}

/// Two candidate prefixes that already differ in their first character
/// cannot both be prefixes of the same text.
proof fn lemma_distinct_prefixes(t: Seq<char>, p: Seq<char>, q: Seq<char>)
    requires
        starts_with_spec(t, p),
        p.len() > 0,
        q.len() > 0,
        p[0] != q[0],
    ensures
        !starts_with_spec(t, q),
{
    if starts_with_spec(t, q) {
        assert(t.subrange(0, p.len() as int)[0] == t[0]);
        assert(t.subrange(0, q.len() as int)[0] == t[0]);
    }
}

/// The five labels start with five different characters, so a line
/// carries at most one of them.
proof fn lemma_labels_exclusive(t: Seq<char>)
    ensures
        starts_with_spec(t, "WEBPAGE_URL:"@) ==> !starts_with_spec(t, "CONTENT_TYPE:"@),
        starts_with_spec(t, "RESEARCH_TOPICS:"@) ==> !starts_with_spec(t, "CONTENT_TYPE:"@)
            && !starts_with_spec(t, "WEBPAGE_URL:"@),
        starts_with_spec(t, "USER_INTENT:"@) ==> !starts_with_spec(t, "CONTENT_TYPE:"@)
            && !starts_with_spec(t, "WEBPAGE_URL:"@) && !starts_with_spec(t, "RESEARCH_TOPICS:"@),
        starts_with_spec(t, "FOLLOW_UP:"@) ==> !starts_with_spec(t, "CONTENT_TYPE:"@)
            && !starts_with_spec(t, "WEBPAGE_URL:"@) && !starts_with_spec(t, "RESEARCH_TOPICS:"@)
            && !starts_with_spec(t, "USER_INTENT:"@),
{
    reveal_strlit("CONTENT_TYPE:");
    reveal_strlit("WEBPAGE_URL:");
    reveal_strlit("RESEARCH_TOPICS:");
    reveal_strlit("USER_INTENT:");
    reveal_strlit("FOLLOW_UP:");
    if starts_with_spec(t, "WEBPAGE_URL:"@) {
        lemma_distinct_prefixes(t, "WEBPAGE_URL:"@, "CONTENT_TYPE:"@);
    }
    if starts_with_spec(t, "RESEARCH_TOPICS:"@) {
        lemma_distinct_prefixes(t, "RESEARCH_TOPICS:"@, "CONTENT_TYPE:"@);
        lemma_distinct_prefixes(t, "RESEARCH_TOPICS:"@, "WEBPAGE_URL:"@);
    }
    if starts_with_spec(t, "USER_INTENT:"@) {
        lemma_distinct_prefixes(t, "USER_INTENT:"@, "CONTENT_TYPE:"@);
        lemma_distinct_prefixes(t, "USER_INTENT:"@, "WEBPAGE_URL:"@);
        lemma_distinct_prefixes(t, "USER_INTENT:"@, "RESEARCH_TOPICS:"@);
    }
    if starts_with_spec(t, "FOLLOW_UP:"@) {
        lemma_distinct_prefixes(t, "FOLLOW_UP:"@, "CONTENT_TYPE:"@);
        lemma_distinct_prefixes(t, "FOLLOW_UP:"@, "WEBPAGE_URL:"@);
        lemma_distinct_prefixes(t, "FOLLOW_UP:"@, "RESEARCH_TOPICS:"@);
        lemma_distinct_prefixes(t, "FOLLOW_UP:"@, "USER_INTENT:"@);
    }
}

/// If exactly one line carries the `WEBPAGE_URL` label and its value is
/// neither `none` nor `unknown`, the parsed URL is that value.
pub proof fn lemma_single_webpage_url(lines: Seq<Seq<char>>, k: int)
    requires
        0 <= k < lines.len(),
        matches_label(lines[k], "WEBPAGE_URL:"@),
        label_value(trim_spec(lines[k]), "WEBPAGE_URL:"@) != "none"@,
        label_value(trim_spec(lines[k]), "WEBPAGE_URL:"@) != "unknown"@,
        forall|j: int| 0 <= j < lines.len() && j != k ==> !matches_label(
            #[trigger] lines[j],
            "WEBPAGE_URL:"@,
        ),
    ensures
        analysis_after(lines).webpage_url == Some(
            label_value(trim_spec(lines[k]), "WEBPAGE_URL:"@),
        ),
    decreases lines.len(),
{
    if k < lines.len() - 1 {
        lemma_single_webpage_url(lines.drop_last(), k);
    } else {
        lemma_labels_exclusive(trim_spec(lines[k]));
    }
}

/// Lines that carry the `WEBPAGE_URL` label only with a value of `none`
/// or `unknown` leave the URL field unset.
pub proof fn lemma_absent_webpage_url(lines: Seq<Seq<char>>)
    requires
        forall|j: int| 0 <= j < lines.len() && matches_label(#[trigger] lines[j], "WEBPAGE_URL:"@)
            ==> label_value(trim_spec(lines[j]), "WEBPAGE_URL:"@) == "none"@ || label_value(
            trim_spec(lines[j]),
            "WEBPAGE_URL:"@,
        ) == "unknown"@,
    ensures
        analysis_after(lines).webpage_url is None,
    decreases lines.len(),
{
    if lines.len() > 0 {
        lemma_absent_webpage_url(lines.drop_last());
    }
}

/// If exactly one line carries the `RESEARCH_TOPICS` label, the parsed
/// topic list is that line's value split on commas, trimmed, with empty
/// entries discarded.
pub proof fn lemma_single_research_topics(lines: Seq<Seq<char>>, k: int)
    requires
        0 <= k < lines.len(),
        matches_label(lines[k], "RESEARCH_TOPICS:"@),
        forall|j: int| 0 <= j < lines.len() && j != k ==> !matches_label(
            #[trigger] lines[j],
            "RESEARCH_TOPICS:"@,
        ),
    ensures
        analysis_after(lines).research_topics == topics_of(
            label_value(trim_spec(lines[k]), "RESEARCH_TOPICS:"@),
        ),
    decreases lines.len(),
{
    if k < lines.len() - 1 {
        lemma_single_research_topics(lines.drop_last(), k);
    } else {
        lemma_labels_exclusive(trim_spec(lines[k]));
    }
}

/// If exactly one line carries the `USER_INTENT` label, the parsed intent
/// is that line's value.
pub proof fn lemma_single_user_intent(lines: Seq<Seq<char>>, k: int)
    requires
        0 <= k < lines.len(),
        matches_label(lines[k], "USER_INTENT:"@),
        forall|j: int| 0 <= j < lines.len() && j != k ==> !matches_label(
            #[trigger] lines[j],
            "USER_INTENT:"@,
        ),
    ensures
        analysis_after(lines).user_intent == label_value(trim_spec(lines[k]), "USER_INTENT:"@),
    decreases lines.len(),
{
    if k < lines.len() - 1 {
        lemma_single_user_intent(lines.drop_last(), k);
    } else {
        lemma_labels_exclusive(trim_spec(lines[k]));
    }
}

/// If exactly one line carries the `FOLLOW_UP` label, the parsed
/// follow-up is that line's value.
pub proof fn lemma_single_follow_up(lines: Seq<Seq<char>>, k: int)
    requires
        0 <= k < lines.len(),
        matches_label(lines[k], "FOLLOW_UP:"@),
        forall|j: int| 0 <= j < lines.len() && j != k ==> !matches_label(
            #[trigger] lines[j],
            "FOLLOW_UP:"@,
        ),
    ensures
        analysis_after(lines).follow_up == label_value(trim_spec(lines[k]), "FOLLOW_UP:"@),
    decreases lines.len(),
{
    if k < lines.len() - 1 {
        lemma_single_follow_up(lines.drop_last(), k);
    } else {
        lemma_labels_exclusive(trim_spec(lines[k]));
    }
}

/// Split a `RESEARCH_TOPICS` value on commas, trim each entry, and drop
/// the empty ones.
fn parse_topics(value: &str) -> (r: Vec<String>)
    ensures
        r.deep_view() == topics_of(value@),
{
    let pieces = split_str(value, ',');
    let mut out: Vec<String> = Vec::new();
    let mut i: usize = 0;
    proof {
        assert(pieces.deep_view().take(0) =~= Seq::<Seq<char>>::empty());
        assert(out.deep_view() =~= cleaned_topics(pieces.deep_view().take(0)));
    }
    while i < pieces.len()
        invariant
            pieces.deep_view() == split_spec(value@, ','),
            pieces.deep_view().len() == pieces@.len(),
            0 <= i <= pieces.len(),
            out.deep_view() == cleaned_topics(pieces.deep_view().take(i as int)),
        decreases pieces.len() - i,
    {
        let ghost pv = pieces.deep_view();
        proof {
            assert(pv.take(i + 1).drop_last() =~= pv.take(i as int));
            assert(pv.take(i + 1).last() == pv[i as int]);
            assert(pv[i as int] == pieces@[i as int]@);
        }
        let t = trim_str(pieces[i].as_str());
        if t.as_str().unicode_len() > 0 {
            let ghost before = out.deep_view();
            out.push(t);
            proof {
                assert(out.deep_view() =~= before.push(trim_spec(pv[i as int])));
            }
        }
        i = i + 1;
    }
    proof {
        assert(pieces.deep_view().take(pieces@.len() as int) =~= pieces.deep_view());
    }
    out
}

/// Extract the structured classification fields from a response text.
/// Recognized labels at the start of a (trimmed) line assign their field;
/// all other lines are ignored; fields no line assigns keep their
/// defaults.
pub fn parse_content_analysis(analysis_text: &str) -> (r: ContentAnalysis)
    ensures
        r@ == parse_spec(analysis_text@),
{
    let lines = split_str(analysis_text, '\n');
    let mut result = ContentAnalysis::default();
    let mut i: usize = 0;
    proof {
        assert(lines.deep_view().take(0) =~= Seq::<Seq<char>>::empty());
    }
    while i < lines.len()
        invariant
            lines.deep_view() == split_spec(analysis_text@, '\n'),
            lines.deep_view().len() == lines@.len(),
            0 <= i <= lines.len(),
            result@ == analysis_after(lines.deep_view().take(i as int)),
        decreases lines.len() - i,
    {
        let ghost lv = lines.deep_view();
        let ghost prev = analysis_after(lv.take(i as int));
        proof {
            assert(lv.take(i + 1).drop_last() =~= lv.take(i as int));
            assert(lv.take(i + 1).last() == lv[i as int]);
            assert(lv[i as int] == lines@[i as int]@);
        }
        let line = trim_str(lines[i].as_str());
        let n = line.as_str().unicode_len();
        if starts_with_str(line.as_str(), "CONTENT_TYPE:") {
            let m = "CONTENT_TYPE:".unicode_len();
            let v = trim_str(line.as_str().substring_char(m, n));
            result.content_type = v;
            proof {
                assert(result@ == apply_line(prev, lv[i as int]));
            }
        } else if starts_with_str(line.as_str(), "WEBPAGE_URL:") {
            let m = "WEBPAGE_URL:".unicode_len();
            let v = trim_str(line.as_str().substring_char(m, n));
            if !(eq_str(v.as_str(), "none") || eq_str(v.as_str(), "unknown")) {
                result.webpage_url = Some(v);
            }
            proof {
                assert(result@ == apply_line(prev, lv[i as int]));
            }
        } else if starts_with_str(line.as_str(), "RESEARCH_TOPICS:") {
            let m = "RESEARCH_TOPICS:".unicode_len();
            let v = trim_str(line.as_str().substring_char(m, n));
            result.research_topics = parse_topics(v.as_str());
            proof {
                assert(result@ == apply_line(prev, lv[i as int]));
            }
        } else if starts_with_str(line.as_str(), "USER_INTENT:") {
            let m = "USER_INTENT:".unicode_len();
            let v = trim_str(line.as_str().substring_char(m, n));
            result.user_intent = v;
            proof {
                assert(result@ == apply_line(prev, lv[i as int]));
            }
        } else if starts_with_str(line.as_str(), "FOLLOW_UP:") {
            let m = "FOLLOW_UP:".unicode_len();
            let v = trim_str(line.as_str().substring_char(m, n));
            result.follow_up = v;
            proof {
                assert(result@ == apply_line(prev, lv[i as int]));
            }
        } else {
            proof {
                assert(result@ == apply_line(prev, lv[i as int]));
            }
        }
        i = i + 1;
    }
    proof {
        assert(lines.deep_view().take(lines@.len() as int) =~= lines.deep_view());
    }
    result
}

} // verus!
