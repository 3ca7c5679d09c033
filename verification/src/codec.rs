//! The event wire envelope codec.
//!
//! Every transport forwards bus events as one JSON object per event: `id`,
//! `platform`, `time` (unix seconds), `self_id`, `type` (`message`, `notice`,
//! `request` or `meta`), and — for message events — `detail_type` (`private`
//! or `group`), the segment array `message`, `message_id`, `user_id`, and,
//! for group messages, `group_id`.  Absent optional fields are omitted, not
//! written as null.  The whole text of a frame is pinned down, character by
//! character, by [`envelope_json`].
use crate::event::{Event, EventContentView, EventView};
use crate::message::{Media, MediaView, MessageSegment, MessageSegmentView, MessageSourceView};
use crate::{pair_views, User, UserView};
use vstd::prelude::*;

verus! {

/// The decimal digit `n`, for `0 <= n < 10`.
pub open spec fn dec_digit(n: int) -> char {
    if n == 0 {
        '0'
    } else if n == 1 {
        '1'
    } else if n == 2 {
        '2'
    } else if n == 3 {
        '3'
    } else if n == 4 {
        '4'
    } else if n == 5 {
        '5'
    } else if n == 6 {
        '6'
    } else if n == 7 {
        '7'
    } else if n == 8 {
        '8'
    } else {
        '9'
    }
}

/// The lower-case hexadecimal digit `n`, for `0 <= n < 16`.
pub open spec fn hex_digit(n: int) -> char {
    if n < 10 {
        dec_digit(n)
    } else if n == 10 {
        'a'
    } else if n == 11 {
        'b'
    } else if n == 12 {
        'c'
    } else if n == 13 {
        'd'
    } else if n == 14 {
        'e'
    } else {
        'f'
    }
}

/// The decimal notation of `n`, without sign or leading zeros (except for the
/// single digit of zero itself).
pub open spec fn dec_nat(n: nat) -> Seq<char>
    decreases n,
{
    if n < 10 {
        seq![dec_digit(n as int)]
    } else {
        dec_nat(n / 10) + seq![dec_digit((n % 10) as int)]
    }
}

/// The decimal notation of `n`, with a leading minus sign when negative.
pub open spec fn dec_int(n: int) -> Seq<char> {
    if n < 0 {
        seq!['-'] + dec_nat((-n) as nat)
    } else {
        dec_nat(n as nat)
    }
}

/// How one character appears inside a JSON string literal.
pub open spec fn json_escape_char(c: char) -> Seq<char> {
    if c == '"' {
        seq!['\\', '"']
    } else if c == '\\' {
        seq!['\\', '\\']
    } else if c == '\n' {
        seq!['\\', 'n']
    } else if c == '\r' {
        seq!['\\', 'r']
    } else if c == '\t' {
        seq!['\\', 't']
    } else if (c as u32) < 32 {
        seq!['\\', 'u', '0', '0', hex_digit((c as u32) as int / 16), hex_digit((c as u32) as int % 16)]
    } else {
        seq![c]
    }
}

/// The body of a JSON string literal holding `s`.
pub open spec fn json_escape(s: Seq<char>) -> Seq<char>
    decreases s.len(),
{
    if s.len() == 0 {
        Seq::empty()
    } else {
        json_escape(s.drop_last()) + json_escape_char(s.last())
    }
}

/// The JSON string literal holding `s`, quotes included.
pub open spec fn json_string(s: Seq<char>) -> Seq<char> {
    seq!['"'] + json_escape(s) + seq!['"']
}

/// The members of a JSON object holding the given key/value pairs, in order,
/// braces not included.
pub open spec fn pairs_json(ps: Seq<(Seq<char>, Seq<char>)>) -> Seq<char>
    decreases ps.len(),
{
    if ps.len() == 0 {
        Seq::empty()
    } else if ps.len() == 1 {
        pair_json(ps[0])
    } else {
        pairs_json(ps.drop_last()) + ","@ + pair_json(ps.last())
    }
}

pub open spec fn pair_json(p: (Seq<char>, Seq<char>)) -> Seq<char> {
    json_string(p.0) + ":"@ + json_string(p.1)
}

/// The JSON object describing a user identity.
pub open spec fn user_json(u: UserView) -> Seq<char> {
    "{\"id\":"@ + json_string(u.id) + ",\"username\":"@ + json_string(u.username)
        + ",\"nickname\":"@ + json_string(u.nickname) + ",\"display_name\":"@ + json_string(
        u.display_name,
    ) + ",\"extended\":{"@ + pairs_json(u.extended) + "}}"@
}

/// The JSON value describing a media reference.
pub open spec fn media_json(m: MediaView) -> Seq<char> {
    match m {
        MediaView::File(s) => "{\"File\":"@ + json_string(s) + "}"@,
        MediaView::URL(s) => "{\"URL\":"@ + json_string(s) + "}"@,
        MediaView::Base64(s) => "{\"Base64\":"@ + json_string(s) + "}"@,
    }
}

/// The JSON object describing one message segment.
pub open spec fn seg_json(s: MessageSegmentView) -> Seq<char> {
    match s {
        MessageSegmentView::Text(t) => "{\"Text\":"@ + json_string(t) + "}"@,
        MessageSegmentView::Emoji(t) => "{\"Emoji\":"@ + json_string(t) + "}"@,
        MessageSegmentView::Image(m) => "{\"Image\":"@ + media_json(m) + "}"@,
        MessageSegmentView::Record(m) => "{\"Record\":"@ + media_json(m) + "}"@,
        MessageSegmentView::Video(m) => "{\"Video\":"@ + media_json(m) + "}"@,
        MessageSegmentView::At(u) => "{\"At\":"@ + user_json(u) + "}"@,
        MessageSegmentView::Location(lat, lon) => "{\"Location\":["@ + dec_int(lat as int) + ","@
            + dec_int(lon as int) + "]}"@,
        MessageSegmentView::Reply(t) => "{\"Reply\":"@ + json_string(t) + "}"@,
        MessageSegmentView::Forward(t) => "{\"Forward\":"@ + json_string(t) + "}"@,
        MessageSegmentView::Custom(t) => "{\"Custom\":"@ + json_string(t) + "}"@,
    }
}

/// The elements of the JSON array of message segments, in order, brackets not
/// included.
pub open spec fn segs_json(ss: Seq<MessageSegmentView>) -> Seq<char>
    decreases ss.len(),
{
    if ss.len() == 0 {
        Seq::empty()
    } else if ss.len() == 1 {
        seg_json(ss[0])
    } else {
        segs_json(ss.drop_last()) + ","@ + seg_json(ss.last())
    }
}

/// The `type` member of the envelope.
pub open spec fn event_type_name(c: EventContentView) -> Seq<char> {
    match c {
        EventContentView::Message(_) => "message"@,
        EventContentView::Notice => "notice"@,
        EventContentView::Request(_) => "request"@,
        EventContentView::Meta(_) => "meta"@,
    }
}

/// The full wire envelope of an event, character by character.
pub open spec fn envelope_json(e: EventView) -> Seq<char> {
    "{\"id\":"@ + json_string(e.id) + ",\"platform\":"@ + json_string(e.platform) + ",\"time\":"@
        + dec_int(e.time as int) + ",\"self_id\":"@ + json_string(e.bot_user.id) + ",\"type\":\""@
        + event_type_name(e.content) + "\""@ + (match e.content {
        EventContentView::Message(m) => ",\"detail_type\":\""@ + (match m.source {
            MessageSourceView::Private(_) => "private"@,
            MessageSourceView::Group(_) => "group"@,
        }) + "\",\"sub_type\":\"\",\"message\":["@ + segs_json(m.content) + "],\"message_id\":"@
            + json_string(m.id) + ",\"user_id\":"@ + json_string(m.sender.id) + (match m.source {
            MessageSourceView::Group(g) => ",\"group_id\":"@ + json_string(g.id),
            MessageSourceView::Private(_) => Seq::empty(),
        }),
        _ => ",\"sub_type\":\"\""@,
    }) + "}"@
}

/// The given event as a subscriber sees it: re-stamped with the gateway's
/// platform tag.
pub open spec fn stamped(e: EventView, platform: Seq<char>) -> EventView {
    EventView { platform, ..e }
}

/// Relies on String's FromIterator impl over characters: the collected string
/// holds exactly the given characters, in order.
#[verifier::external_body]
pub(crate) fn chars_to_string(v: &Vec<char>) -> (s: String)
    ensures
        s@ == v@,
{
    v.iter().collect()
}

/// The characters of a string slice, in order.
fn str_to_chars(s: &str) -> (v: Vec<char>)
    ensures
        v@ == s@,
{
    let n = s.unicode_len();
    let mut v: Vec<char> = Vec::new();
    let mut i: usize = 0;
    while i < n
        invariant
            i <= n,
            n == s@.len(),
            v@ =~= s@.take(i as int),
        decreases n - i,
    {
        v.push(s.get_char(i));
        proof {
            assert(v@ =~= s@.take(i as int + 1));
        }
        i = i + 1;
    }
    proof {
        assert(s@.take(n as int) =~= s@);
    }
    v
}

pub(crate) fn push_str_chars(out: &mut Vec<char>, s: &str)
    ensures
        final(out)@ == old(out)@ + s@,
{
    let cs = str_to_chars(s);
    let mut i: usize = 0;
    while i < cs.len()
        invariant
            i <= cs@.len(),
            cs@ == s@,
            out@ =~= old(out)@ + s@.take(i as int),
        decreases cs@.len() - i,
    {
        out.push(cs[i]);
        proof {
            assert(out@ =~= old(out)@ + s@.take(i as int + 1));
        }
        i = i + 1;
    }
    proof {
        assert(old(out)@ + s@.take(s@.len() as int) =~= old(out)@ + s@);
    }
}

fn dec_digit_exec(d: u8) -> (c: char)
    requires
        d < 10,
    ensures
        c == dec_digit(d as int),
{
    if d == 0 {
        '0'
    } else if d == 1 {
        '1'
    } else if d == 2 {
        '2'
    } else if d == 3 {
        '3'
    } else if d == 4 {
        '4'
    } else if d == 5 {
        '5'
    } else if d == 6 {
        '6'
    } else if d == 7 {
        '7'
    } else if d == 8 {
        '8'
    } else {
        '9'
    }
}

fn hex_digit_exec(d: u8) -> (c: char)
    requires
        d < 16,
    ensures
        c == hex_digit(d as int),
{
    if d < 10 {
        dec_digit_exec(d)
    } else if d == 10 {
        'a'
    } else if d == 11 {
        'b'
    } else if d == 12 {
        'c'
    } else if d == 13 {
        'd'
    } else if d == 14 {
        'e'
    } else {
        'f'
    }
}

fn push_dec_u64(out: &mut Vec<char>, n: u64)
    ensures
        final(out)@ == old(out)@ + dec_nat(n as nat),
{
    let mut digits: Vec<char> = Vec::new();
    let mut m: u64 = n;
    proof {
        assert(dec_nat(n as nat) =~= dec_nat(n as nat) + digits@.reverse());
    }
    loop
        invariant_except_break
            dec_nat(n as nat) =~= dec_nat(m as nat) + digits@.reverse(),
        ensures
            dec_nat(n as nat) == digits@.reverse(),
        decreases m,
    {
        let ghost m0 = m as nat;
        let ghost pre = digits@;
        if m < 10 {
            digits.push(dec_digit_exec(m as u8));
            proof {
                assert(digits@.reverse() =~= seq![dec_digit(m0 as int)] + pre.reverse());
                assert(dec_nat(m0) == seq![dec_digit(m0 as int)]);
                assert(dec_nat(n as nat) =~= digits@.reverse());
            }
            break;
        } else {
            let d = (m % 10) as u8;
            digits.push(dec_digit_exec(d));
            m = m / 10;
            proof {
                assert(digits@.reverse() =~= seq![dec_digit((m0 % 10) as int)] + pre.reverse());
                assert(dec_nat(m0) == dec_nat(m0 / 10) + seq![dec_digit((m0 % 10) as int)]);
                assert(m as nat == m0 / 10);
                assert(dec_nat(n as nat) =~= dec_nat(m as nat) + digits@.reverse());
            }
        }
    }
    let mut i: usize = digits.len();
    proof {
        assert(digits@.reverse().take(0) =~= Seq::<char>::empty());
        assert(out@ =~= old(out)@ + digits@.reverse().take(0));
    }
    while i > 0
        invariant
            i <= digits@.len(),
            dec_nat(n as nat) == digits@.reverse(),
            out@ =~= old(out)@ + digits@.reverse().take(digits@.len() - i),
        decreases i,
    {
        i = i - 1;
        out.push(digits[i]);
        proof {
            assert(digits@.reverse()[digits@.len() - i - 1] == digits@[i as int]);
            assert(out@ =~= old(out)@ + digits@.reverse().take(digits@.len() - i));
        }
    }
    proof {
        assert(digits@.reverse().take(digits@.len() as int) =~= digits@.reverse());
    }
}

fn push_dec_i64(out: &mut Vec<char>, n: i64)
    ensures
        final(out)@ == old(out)@ + dec_int(n as int),
{
    if n >= 0 {
        push_dec_u64(out, n as u64);
    } else {
        out.push('-');
        let mag: u64 = if n == i64::MIN {
            9223372036854775808u64
        } else {
            (-n) as u64
        };
        proof {
            assert(mag as nat == (-(n as int)) as nat);
        }
        let ghost mid = out@;
        push_dec_u64(out, mag);
        proof {
            assert(out@ =~= old(out)@ + dec_int(n as int));
        }
    }
}

pub(crate) fn push_json_string(out: &mut Vec<char>, s: &str)
    ensures
        final(out)@ == old(out)@ + json_string(s@),
{
    out.push('"');
    let cs = str_to_chars(s);
    let mut i: usize = 0;
    while i < cs.len()
        invariant
            i <= cs@.len(),
            cs@ == s@,
            out@ =~= old(out)@ + seq!['"'] + json_escape(s@.take(i as int)),
        decreases cs@.len() - i,
    {
        let c = cs[i];
        if c == '"' {
            out.push('\\');
            out.push('"');
        } else if c == '\\' {
            out.push('\\');
            out.push('\\');
        } else if c == '\n' {
            out.push('\\');
            out.push('n');
        } else if c == '\r' {
            out.push('\\');
            out.push('r');
        } else if c == '\t' {
            out.push('\\');
            out.push('t');
        } else {
            let code = c as u32;
            if code < 32 {
                out.push('\\');
                out.push('u');
                out.push('0');
                out.push('0');
                out.push(hex_digit_exec((code / 16) as u8));
                out.push(hex_digit_exec((code % 16) as u8));
            } else {
                out.push(c);
            }
        }
        proof {
            assert(s@.take(i as int + 1).drop_last() =~= s@.take(i as int));
            assert(s@.take(i as int + 1).last() == s@[i as int]);
            assert(json_escape(s@.take(i as int + 1)) == json_escape(s@.take(i as int))
                + json_escape_char(s@[i as int]));
            assert(out@ =~= old(out)@ + seq!['"'] + json_escape(s@.take(i as int + 1)));
        }
        i = i + 1;
    }
    out.push('"');
    proof {
        assert(s@.take(s@.len() as int) =~= s@);
        assert(out@ =~= old(out)@ + json_string(s@));
    }
}

fn push_pairs_json(out: &mut Vec<char>, ps: &Vec<(String, String)>)
    ensures
        final(out)@ == old(out)@ + pairs_json(pair_views(ps@)),
{
    let ghost views = pair_views(ps@);
    let mut i: usize = 0;
    proof {
        assert(views.take(0) =~= Seq::<(Seq<char>, Seq<char>)>::empty());
    }
    while i < ps.len()
        invariant
            i <= ps@.len(),
            views == pair_views(ps@),
            out@ =~= old(out)@ + pairs_json(views.take(i as int)),
        decreases ps@.len() - i,
    {
        if i > 0 {
            push_str_chars(out, ",");
        }
        let (k, v) = &ps[i];
        push_json_string(out, k.as_str());
        push_str_chars(out, ":");
        push_json_string(out, v.as_str());
        proof {
            assert(views[i as int] == (k@, v@));
            assert(views.take(i as int + 1).drop_last() =~= views.take(i as int));
            if i == 0 {
                assert(pairs_json(views.take(1)) == pair_json(views[0]));
            } else {
                assert(pairs_json(views.take(i as int + 1)) == pairs_json(views.take(i as int))
                    + ","@ + pair_json(views[i as int]));
            }
            assert(out@ =~= old(out)@ + pairs_json(views.take(i as int + 1)));
        }
        i = i + 1;
    }
    proof {
        assert(views.take(views.len() as int) =~= views);
    }
}

fn push_user_json(out: &mut Vec<char>, u: &User)
    ensures
        final(out)@ == old(out)@ + user_json(u@),
{
    push_str_chars(out, "{\"id\":");
    push_json_string(out, u.id.as_str());
    push_str_chars(out, ",\"username\":");
    push_json_string(out, u.username.as_str());
    push_str_chars(out, ",\"nickname\":");
    push_json_string(out, u.nickname.as_str());
    push_str_chars(out, ",\"display_name\":");
    push_json_string(out, u.display_name.as_str());
    push_str_chars(out, ",\"extended\":{");
    push_pairs_json(out, &u.extended);
    push_str_chars(out, "}}");
    proof {
        assert(out@ =~= old(out)@ + user_json(u@));
    }
}

fn push_media_json(out: &mut Vec<char>, m: &Media)
    ensures
        final(out)@ == old(out)@ + media_json(m@),
{
    match m {
        Media::File(s) => {
            push_str_chars(out, "{\"File\":");
            push_json_string(out, s.as_str());
            push_str_chars(out, "}");
        },
        Media::URL(s) => {
            push_str_chars(out, "{\"URL\":");
            push_json_string(out, s.as_str());
            push_str_chars(out, "}");
        },
        Media::Base64(s) => {
            push_str_chars(out, "{\"Base64\":");
            push_json_string(out, s.as_str());
            push_str_chars(out, "}");
        },
    }
    proof {
        assert(out@ =~= old(out)@ + media_json(m@));
    }
}

fn push_seg_json(out: &mut Vec<char>, s: &MessageSegment)
    ensures
        final(out)@ == old(out)@ + seg_json(s@),
{
    match s {
        MessageSegment::Text(t) => {
            push_str_chars(out, "{\"Text\":");
            push_json_string(out, t.as_str());
            push_str_chars(out, "}");
        },
        MessageSegment::Emoji(t) => {
            push_str_chars(out, "{\"Emoji\":");
            push_json_string(out, t.as_str());
            push_str_chars(out, "}");
        },
        MessageSegment::Image(m) => {
            push_str_chars(out, "{\"Image\":");
            push_media_json(out, m);
            push_str_chars(out, "}");
        },
        MessageSegment::Record(m) => {
            push_str_chars(out, "{\"Record\":");
            push_media_json(out, m);
            push_str_chars(out, "}");
        },
        MessageSegment::Video(m) => {
            push_str_chars(out, "{\"Video\":");
            push_media_json(out, m);
            push_str_chars(out, "}");
        },
        MessageSegment::At(u) => {
            push_str_chars(out, "{\"At\":");
            push_user_json(out, u);
            push_str_chars(out, "}");
        },
        MessageSegment::Location(lat, lon) => {
            push_str_chars(out, "{\"Location\":[");
            push_dec_i64(out, *lat);
            push_str_chars(out, ",");
            push_dec_i64(out, *lon);
            push_str_chars(out, "]}");
        },
        MessageSegment::Reply(t) => {
            push_str_chars(out, "{\"Reply\":");
            push_json_string(out, t.as_str());
            push_str_chars(out, "}");
        },
        MessageSegment::Forward(t) => {
            push_str_chars(out, "{\"Forward\":");
            push_json_string(out, t.as_str());
            push_str_chars(out, "}");
        },
        MessageSegment::Custom(t) => {
            push_str_chars(out, "{\"Custom\":");
            push_json_string(out, t.as_str());
            push_str_chars(out, "}");
        },
    }
    proof {
        assert(out@ =~= old(out)@ + seg_json(s@));
    }
}

fn push_segs_json(out: &mut Vec<char>, ss: &Vec<MessageSegment>)
    ensures
        final(out)@ == old(out)@ + segs_json(crate::message::seg_views(ss@)),
{
    let ghost views = crate::message::seg_views(ss@);
    let mut i: usize = 0;
    proof {
        assert(views.take(0) =~= Seq::<MessageSegmentView>::empty());
    }
    while i < ss.len()
        invariant
            i <= ss@.len(),
            views == crate::message::seg_views(ss@),
            out@ =~= old(out)@ + segs_json(views.take(i as int)),
        decreases ss@.len() - i,
    {
        if i > 0 {
            push_str_chars(out, ",");
        }
        push_seg_json(out, &ss[i]);
        proof {
            assert(views[i as int] == ss@[i as int]@);
            assert(views.take(i as int + 1).drop_last() =~= views.take(i as int));
            if i == 0 {
                assert(segs_json(views.take(1)) == seg_json(views[0]));
            } else {
                assert(segs_json(views.take(i as int + 1)) == segs_json(views.take(i as int))
                    + ","@ + seg_json(views[i as int]));
            }
            assert(out@ =~= old(out)@ + segs_json(views.take(i as int + 1)));
        }
        i = i + 1;
    }
    proof {
        assert(views.take(views.len() as int) =~= views);
    }
}

/// Serializes an event as one wire frame, stamping the gateway's platform tag
/// in place of whatever the event carried.
pub fn event_frame_text(e: &Event, platform: &str) -> (r: String)
    ensures
        r@ == envelope_json(stamped(e@, platform@)),
{
    let mut out: Vec<char> = Vec::new();
    push_str_chars(&mut out, "{\"id\":");
    push_json_string(&mut out, e.id.as_str());
    push_str_chars(&mut out, ",\"platform\":");
    push_json_string(&mut out, platform);
    push_str_chars(&mut out, ",\"time\":");
    push_dec_i64(&mut out, e.time);
    push_str_chars(&mut out, ",\"self_id\":");
    push_json_string(&mut out, e.bot_user.id.as_str());
    push_str_chars(&mut out, ",\"type\":\"");
    match &e.content {
        crate::event::EventContent::Message(m) => {
            push_str_chars(&mut out, "message");
            push_str_chars(&mut out, "\"");
            push_str_chars(&mut out, ",\"detail_type\":\"");
            match &m.source {
                crate::message::MessageSource::Private(_) => {
                    push_str_chars(&mut out, "private");
                },
                crate::message::MessageSource::Group(_) => {
                    push_str_chars(&mut out, "group");
                },
            }
            push_str_chars(&mut out, "\",\"sub_type\":\"\",\"message\":[");
            push_segs_json(&mut out, &m.content);
            push_str_chars(&mut out, "],\"message_id\":");
            push_json_string(&mut out, m.id.as_str());
            push_str_chars(&mut out, ",\"user_id\":");
            push_json_string(&mut out, m.sender.id.as_str());
            if let crate::message::MessageSource::Group(g) = &m.source {
                push_str_chars(&mut out, ",\"group_id\":");
                push_json_string(&mut out, g.id.as_str());
            }
        },
        crate::event::EventContent::Notice(_) => {
            push_str_chars(&mut out, "notice");
            push_str_chars(&mut out, "\"");
            push_str_chars(&mut out, ",\"sub_type\":\"\"");
        },
        crate::event::EventContent::Request(_) => {
            push_str_chars(&mut out, "request");
            push_str_chars(&mut out, "\"");
            push_str_chars(&mut out, ",\"sub_type\":\"\"");
        },
        crate::event::EventContent::Meta(_) => {
            push_str_chars(&mut out, "meta");
            push_str_chars(&mut out, "\"");
            push_str_chars(&mut out, ",\"sub_type\":\"\"");
        },
    }
    push_str_chars(&mut out, "}");
    proof {
        assert(out@ =~= envelope_json(stamped(e@, platform@)));
    }
    chars_to_string(&out)
}

} // verus!
