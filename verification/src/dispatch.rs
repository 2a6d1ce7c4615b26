//! Composition of the notification pushed to the messaging service: a
//! source-tagged header with a clock reading, the AI summary, and the
//! interactive action buttons keyed by the record's identifier. Delivery
//! itself happens outside the library and its outcome never reaches the
//! submission's caller.

use vstd::prelude::*;
use crate::text::{starts_with_spec, starts_with_str};

verus! {

/// One interactive action offered under a notification: a label and the
/// opaque callback token the messaging service hands back when pressed.
#[derive(Clone, Debug)]
pub struct ActionButton {
    pub label: String,
    pub callback: String,
}

pub struct ActionButtonView {
    pub label: Seq<char>,
    pub callback: Seq<char>,
}

impl View for ActionButton {
    type V = ActionButtonView;

    open spec fn view(&self) -> ActionButtonView {
        ActionButtonView { label: self.label@, callback: self.callback@ }
    }
}

impl DeepView for ActionButton {
    type V = ActionButtonView;

    open spec fn deep_view(&self) -> ActionButtonView {
        self.view()
    }
}

/// A composed notification: the rich-text message and its action
/// buttons.
#[derive(Clone, Debug)]
pub struct NotificationMessage {
    pub text: String,
    pub buttons: Vec<ActionButton>,
}

/// The digit character for one decimal digit.
pub open spec fn digit_char(d: int) -> char {
    if d == 0 {
        '0'
    } else if d == 1 {
        '1'
    } else if d == 2 {
        '2'
    } else if d == 3 {
        '3'
    } else if d == 4 {
        '4'
    } else if d == 5 {
        '5'
    } else if d == 6 {
        '6'
    } else if d == 7 {
        '7'
    } else if d == 8 {
        '8'
    } else {
        '9'
    }
}

/// A value under 100 written with two digits.
pub open spec fn two_digit_spec(v: int) -> Seq<char> {
    seq![digit_char(v / 10), digit_char(v % 10)]
}

/// The `HH:MM:SS` clock reading of a millisecond timestamp.
pub open spec fn hms_spec(ms: int) -> Seq<char> {
    two_digit_spec((ms / 3600000) % 24) + ":"@ + two_digit_spec((ms / 60000) % 60) + ":"@
        + two_digit_spec((ms / 1000) % 60)
}

/// The source-tagged header of a notification.
pub open spec fn header_spec(source_type: Seq<char>, now_ms: int) -> Seq<char> {
    if starts_with_spec(source_type, "desktop"@) {
        "<b>🖥️ Desktop Screenshot</b> <i>"@ + hms_spec(now_ms) + "</i>"@
    } else {
        "<b>📱 iPhone Screenshot</b> <i>"@ + hms_spec(now_ms) + "</i>"@
    }
}

/// The whole message text: the header, then the summary under a fixed
/// heading.
pub open spec fn message_text_spec(
    source_type: Seq<char>,
    now_ms: int,
    summary: Seq<char>,
) -> Seq<char> {
    header_spec(source_type, now_ms) + "\n\n<b>AI Analysis:</b>\n\n"@ + summary
}

/// The string of one decimal digit.
fn digit_str(d: u64) -> (r: &'static str)
    requires
        d < 10,
    ensures
        r@ == seq![digit_char(d as int)],
{
    let r: &'static str = match d {
        0 => "0",
        1 => "1",
        2 => "2",
        3 => "3",
        4 => "4",
        5 => "5",
        6 => "6",
        7 => "7",
        8 => "8",
        _ => "9",
    };
    proof {
        reveal_strlit("0");
        reveal_strlit("1");
        reveal_strlit("2");
        reveal_strlit("3");
        reveal_strlit("4");
        reveal_strlit("5");
        reveal_strlit("6");
        reveal_strlit("7");
        reveal_strlit("8");
        reveal_strlit("9");
        assert(r@ =~= seq![digit_char(d as int)]);
    }
    r
}

/// A value under 100 written with two digits.
fn two_digit(v: u64) -> (r: String)
    requires
        v < 100,
    ensures
        r@ == two_digit_spec(v as int),
{
    let mut r = digit_str(v / 10).to_owned();
    r.append(digit_str(v % 10));
    proof {
        assert(r@ =~= two_digit_spec(v as int));
    }
    r
}

/// The `HH:MM:SS` clock reading of a millisecond timestamp.
pub fn hms_text(now_ms: i64) -> (r: String)
    requires
        0 <= now_ms,
    ensures
        r@ == hms_spec(now_ms as int),
{
    let t = now_ms as u64;
    let mut r = two_digit((t / 3600000) % 24);
    r.append(":");
    let minutes = two_digit((t / 60000) % 60);
    r.append(minutes.as_str());
    r.append(":");
    let seconds = two_digit((t / 1000) % 60);
    r.append(seconds.as_str());
    proof {
        assert(r@ =~= hms_spec(now_ms as int));
    }
    r
}

/// Compose the notification for a completed record: the source-tagged
/// header and summary, the two fixed research actions, and — only when a
/// URL was detected — the webpage action, every callback token keyed by
/// the record's identifier text.
pub fn compose_notification(
    summary: &str,
    id_text: &str,
    has_url: bool,
    source_type: &str,
    now_ms: i64,
) -> (r: NotificationMessage)
    requires
        0 <= now_ms,
    ensures
        r.text@ == message_text_spec(source_type@, now_ms as int, summary@),
        r.buttons@.len() == (if has_url {
            3int
        } else {
            2int
        }),
        r.buttons@[0]@.label == "🔬 Research Papers"@,
        r.buttons@[0]@.callback == "arxiv_research_"@ + id_text@,
        r.buttons@[1]@.label == "🧠 Deep Research"@,
        r.buttons@[1]@.callback == "deep_research_"@ + id_text@,
        has_url ==> r.buttons@[2]@.label == "🌐 Webpage Content"@,
        has_url ==> r.buttons@[2]@.callback == "full_webpage_"@ + id_text@,
{
    let mut text: String = if starts_with_str(source_type, "desktop") {
        "<b>🖥️ Desktop Screenshot</b> <i>".to_owned()
    } else {
        "<b>📱 iPhone Screenshot</b> <i>".to_owned()
    };
    let ts = hms_text(now_ms);
    text.append(ts.as_str());
    text.append("</i>");
    text.append("\n\n<b>AI Analysis:</b>\n\n");
    text.append(summary);
    proof {
        assert(text@ =~= message_text_spec(source_type@, now_ms as int, summary@));
    }
    let mut research = "arxiv_research_".to_owned();
    research.append(id_text);
    let mut deep = "deep_research_".to_owned();
    deep.append(id_text);
    let mut buttons: Vec<ActionButton> = Vec::new();
    buttons.push(ActionButton { label: "🔬 Research Papers".to_owned(), callback: research });
    buttons.push(ActionButton { label: "🧠 Deep Research".to_owned(), callback: deep });
    if has_url {
        let mut webpage = "full_webpage_".to_owned();
        webpage.append(id_text);
        buttons.push(ActionButton { label: "🌐 Webpage Content".to_owned(), callback: webpage });
    }
    NotificationMessage { text, buttons }
}

} // verus!
