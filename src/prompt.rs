//! Turning a window of channel history into the text handed to the
//! generation engine.

use vstd::prelude::*;

verus! {

/// Who wrote a message: an identity, a display name and, where the platform
/// has one, a four-digit discriminator.
pub struct Speaker {
    pub id: u64,
    pub name: String,
    pub discriminator: Option<u16>,
}

/// One message of the history window, content as the platform rendered it.
pub struct HistoryEntry {
    pub author: Speaker,
    pub content: String,
}

/// The character that stands for decimal digit `d`.
pub open spec fn digit_char(d: nat) -> char {
    ((d + 48) as u8) as char
}

/// The decimal digits of `n`, most significant first, with no leading zero.
pub open spec fn decimal(n: nat) -> Seq<char>
    decreases n,
{
    if n < 10 {
        seq![digit_char(n)]
    } else {
        decimal(n / 10).push(digit_char(n % 10))
    }
}

/// `s` with zeros in front, up to `width` characters.
pub open spec fn zero_padded(s: Seq<char>, width: nat) -> Seq<char> {
    if s.len() >= width {
        s
    } else {
        Seq::new((width - s.len()) as nat, |i: int| '0') + s
    }
}

/// How a speaker is named in a prompt: `name`, or `name#NNNN`.
pub open spec fn label(name: Seq<char>, discriminator: Option<u16>) -> Seq<char> {
    match discriminator {
        Some(d) => name + seq!['#'] + zero_padded(decimal(d as nat), 4),
        None => name,
    }
}

/// Message content with mention markup characters removed.
pub open spec fn sanitized(content: Seq<char>) -> Seq<char> {
    content.filter(|c: char| c != '@')
}

/// The lines that entry `i` of `h` adds: a continuation line where the
/// previous entry has the same author, else a new turn.
pub open spec fn turn(h: Seq<HistoryEntry>, i: int) -> Seq<char> {
    if i > 0 && h[i - 1].author.id == h[i].author.id {
        sanitized(h[i].content@) + "\n"@
    } else {
        "### "@ + label(h[i].author.name@, h[i].author.discriminator) + ": "@ + sanitized(
            h[i].content@,
        ) + "\n"@
    }
}

/// The history block of a prompt, for `h` in chronological order.
pub open spec fn history_block(h: Seq<HistoryEntry>) -> Seq<char>
    decreases h.len(),
{
    if h.len() == 0 {
        Seq::empty()
    } else {
        history_block(h.drop_last()) + turn(h, h.len() - 1)
    }
}

/// The whole prompt: persona, a blank line, the context header, the history,
/// and the cue for the responder's own turn.
pub open spec fn prompt_text(persona: Seq<char>, h: Seq<HistoryEntry>, me: Speaker) -> Seq<char> {
    persona + "\n\nContext:\n"@ + history_block(h) + "### "@ + label(me.name@, me.discriminator)
        + ": "@
}

/// Relies on str::replace: every '@' goes, every other character stays in order.
#[verifier::external_body]
fn strip_mentions(s: &str) -> (r: String)
    ensures
        r@ == sanitized(s@),
{
    s.replace('@', "")
}

/// A decimal number has no more digits than its value plus one.
proof fn lemma_decimal_len(n: nat)
    ensures
        1 <= decimal(n).len() <= n + 1,
    decreases n,
{
    if n >= 10 {
        lemma_decimal_len(n / 10);
    }
}

/// Decimal digit `d` as a string of one character.
fn digit_str(d: u16) -> (r: &'static str)
    requires
        d < 10,
    ensures
        r@ == seq![digit_char(d as nat)],
{
    proof {
        reveal_strlit("0");
        reveal_strlit("1");
        reveal_strlit("2");
        reveal_strlit("3");
        reveal_strlit("4");
        reveal_strlit("5");
        reveal_strlit("6");
        reveal_strlit("7");
        reveal_strlit("8");
        reveal_strlit("9");
    }
    let r = if d == 0 {
        "0"
    } else if d == 1 {
        "1"
    } else if d == 2 {
        "2"
    } else if d == 3 {
        "3"
    } else if d == 4 {
        "4"
    } else if d == 5 {
        "5"
    } else if d == 6 {
        "6"
    } else if d == 7 {
        "7"
    } else if d == 8 {
        "8"
    } else {
        "9"
    };
    assert(r@ =~= seq![digit_char(d as nat)]);
    r
}

/// Appends the decimal digits of `n` to `out`; returns how many there are.
fn push_decimal(out: &mut String, n: u16) -> (k: usize)
    ensures
        final(out)@ == old(out)@ + decimal(n as nat),
        k == decimal(n as nat).len(),
    decreases n,
{
    proof {
        lemma_decimal_len(n as nat);
    }
    if n < 10 {
        out.append(digit_str(n));
        1
    } else {
        let k = push_decimal(out, n / 10);
        out.append(digit_str(n % 10));
        assert(final(out)@ =~= old(out)@ + decimal(n as nat));
        k + 1
    }
}

/// The decimal digits of `d`, zero-padded to four places.
fn four_digits(d: u16) -> (r: String)
    ensures
        r@ == zero_padded(decimal(d as nat), 4),
{
    let mut digits = String::new();
    let k = push_decimal(&mut digits, d);
    let mut r = String::new();
    let mut i: usize = k;
    while i < 4
        invariant
            k <= i,
            k <= 4 ==> i <= 4,
            k > 4 ==> i == k,
            r@ =~= Seq::new((i - k) as nat, |j: int| '0'),
        decreases 4 - i,
    {
        r.append("0");
        proof {
            reveal_strlit("0");
        }
        i = i + 1;
    }
    r.append(digits.as_str());
    assert(r@ =~= zero_padded(decimal(d as nat), 4));
    r
}

/// Appends the label of a speaker to `out`.
pub fn push_label(out: &mut String, who: &Speaker)
    ensures
        final(out)@ == old(out)@ + label(who.name@, who.discriminator),
{
    out.append(who.name.as_str());
    match who.discriminator {
        Some(d) => {
            out.append("#");
            proof {
                reveal_strlit("#");
            }
            let digits = four_digits(d);
            out.append(digits.as_str());
            assert(final(out)@ =~= old(out)@ + label(who.name@, who.discriminator));
        },
        None => {},
    }
}

/// The label of a speaker as a string: `name`, or `name#NNNN`.
pub fn speaker_label(who: &Speaker) -> (r: String)
    ensures
        r@ == label(who.name@, who.discriminator),
{
    let mut r = String::new();
    push_label(&mut r, who);
    assert(r@ =~= label(who.name@, who.discriminator));
    r
}

/// Builds the prompt from a persona, the history in chronological order and
/// the responder's own identity.
pub fn assemble(persona: &str, history: &Vec<HistoryEntry>, me: &Speaker) -> (r: String)
    ensures
        r@ == prompt_text(persona@, history@, *me),
{
    let mut out = String::new();
    out.append(persona);
    out.append("\n\nContext:\n");
    let ghost head = persona@ + "\n\nContext:\n"@;
    assert(out@ =~= head);
    let mut i: usize = 0;
    while i < history.len()
        invariant
            i <= history@.len(),
            out@ == head + history_block(history@.take(i as int)),
        decreases history@.len() - i,
    {
        let e = &history[i];
        let text = strip_mentions(e.content.as_str());
        let before = Ghost(out@);
        if i > 0 && history[i - 1].author.id == e.author.id {
            out.append(text.as_str());
            out.append("\n");
        } else {
            out.append("### ");
            push_label(&mut out, &e.author);
            out.append(": ");
            out.append(text.as_str());
            out.append("\n");
        }
        proof {
            let t = history@.take(i as int + 1);
            assert(t.drop_last() =~= history@.take(i as int));
            assert(turn(t, i as int) == turn(history@, i as int));
            assert(out@ =~= before@ + turn(history@, i as int));
        }
        i = i + 1;
    }
    assert(history@.take(history@.len() as int) =~= history@);
    out.append("### ");
    push_label(&mut out, me);
    out.append(": ");
    assert(out@ =~= prompt_text(persona@, history@, *me));
    out
}

/// Puts a window fetched newest-first into chronological order.
pub fn chronological(newest_first: Vec<HistoryEntry>) -> (r: Vec<HistoryEntry>)
    ensures
        r@ == newest_first@.reverse(),
{
    let mut rest = newest_first;
    let mut out: Vec<HistoryEntry> = Vec::new();
    while rest.len() > 0
        invariant
            out@ + rest@.reverse() == newest_first@.reverse(),
        decreases rest@.len(),
    {
        let ghost before = rest@;
        let e = rest.pop().unwrap();
        proof {
            assert(before.reverse() =~= seq![e] + rest@.reverse());
            assert(out@.push(e) + rest@.reverse() =~= out@ + before.reverse());
        }
        out.push(e);
    }
    assert(rest@.reverse() =~= Seq::<HistoryEntry>::empty());
    assert(out@ =~= out@ + rest@.reverse());
    out
}

/// Whether the turn marker `###` starts at position `i` of `s`.
pub open spec fn marker_at(s: Seq<char>, i: int) -> bool {
    0 <= i && i + 3 <= s.len() && s[i] == '#' && s[i + 1] == '#' && s[i + 2] == '#'
}

/// Whether `r` is what the engine said in the responder's turn: `generated`
/// up to the first turn marker, or all of it where there is none.
pub open spec fn is_own_turn(generated: Seq<char>, r: Seq<char>) -> bool {
    exists|k: int|
        #![trigger generated.take(k)]
        0 <= k <= generated.len() && r == generated.take(k) && (forall|j: int|
            0 <= j < k ==> !marker_at(generated, j)) && (k == generated.len() || marker_at(
            generated,
            k,
        ))
}

/// The part of the engine's output that belongs to the responder's turn: it
/// ends where the engine starts another speaker's turn.
pub fn own_turn(generated: &Vec<char>) -> (r: Vec<char>)
    ensures
        is_own_turn(generated@, r@),
{
    let n = generated.len();
    let mut out: Vec<char> = Vec::new();
    let mut i: usize = 0;
    while i < n
        invariant
            n == generated@.len(),
            i <= n,
            out@ == generated@.take(i as int),
            forall|j: int| 0 <= j < i ==> !marker_at(generated@, j),
        decreases n - i,
    {
        if n - i >= 3 && generated[i] == '#' && generated[i + 1] == '#' && generated[i + 2] == '#' {
            assert(marker_at(generated@, i as int));
            return out;
        }
        out.push(generated[i]);
        assert(out@ =~= generated@.take(i as int + 1));
        i = i + 1;
    }
    assert(out@ =~= generated@.take(n as int));
    out
}

} // verus!
