//! Rendering of pool metrics as display text.

use vstd::prelude::*;

verus! {

/// The character that writes the digit `d`.
pub open spec fn digit(d: int) -> char {
    if d == 0 {
        '0'
    } else if d == 1 {
        '1'
    } else if d == 2 {
        '2'
    } else if d == 3 {
        '3'
    } else if d == 4 {
        '4'
    } else if d == 5 {
        '5'
    } else if d == 6 {
        '6'
    } else if d == 7 {
        '7'
    } else if d == 8 {
        '8'
    } else {
        '9'
    }
}

/// The number that a digit character writes; 0 for any other character.
pub open spec fn digit_value(c: char) -> nat {
    if c == '1' {
        1
    } else if c == '2' {
        2
    } else if c == '3' {
        3
    } else if c == '4' {
        4
    } else if c == '5' {
        5
    } else if c == '6' {
        6
    } else if c == '7' {
        7
    } else if c == '8' {
        8
    } else if c == '9' {
        9
    } else {
        0
    }
}

/// `n` in decimal, without sign or leading zeros.
pub open spec fn decimal(n: nat) -> Seq<char>
    decreases n,
{
    if n < 10 {
        seq![digit(n as int)]
    } else {
        decimal(n / 10).push(digit((n % 10) as int))
    }
}

/// The three digits of `n % 1000`, leading zeros included.
pub open spec fn triple(n: nat) -> Seq<char> {
    seq![digit(((n / 100) % 10) as int), digit(((n / 10) % 10) as int), digit((n % 10) as int)]
}

/// `n` in decimal with a comma before every group of three digits, counted
/// from the right.
pub open spec fn grouped(n: nat) -> Seq<char>
    decreases n,
{
    if n < 1000 {
        decimal(n)
    } else {
        grouped(n / 1000) + seq![','] + triple(n % 1000)
    }
}

/// The number that a string of digits writes in decimal.
pub open spec fn decimal_value(s: Seq<char>) -> nat
    decreases s.len(),
{
    if s.len() == 0 {
        0
    } else {
        decimal_value(s.drop_last()) * 10 + digit_value(s.last())
    }
}

/// `s` with every comma taken out.
pub open spec fn without_commas(s: Seq<char>) -> Seq<char> {
    s.filter(|c: char| c != ',')
}

fn digit_str(d: u64) -> (r: &'static str)
    requires
        d < 10,
    ensures
        r@ == seq![digit(d as int)],
{
    proof {
        reveal_strlit("0");
        reveal_strlit("1");
        reveal_strlit("2");
        reveal_strlit("3");
        reveal_strlit("4");
        reveal_strlit("5");
        reveal_strlit("6");
        reveal_strlit("7");
        reveal_strlit("8");
        reveal_strlit("9");
    }
    let r = if d == 0 {
        "0"
    } else if d == 1 {
        "1"
    } else if d == 2 {
        "2"
    } else if d == 3 {
        "3"
    } else if d == 4 {
        "4"
    } else if d == 5 {
        "5"
    } else if d == 6 {
        "6"
    } else if d == 7 {
        "7"
    } else if d == 8 {
        "8"
    } else {
        "9"
    };
    assert(r@ =~= seq![digit(d as int)]);
    r
}

/// Appends `n` in decimal to `out`.
pub fn push_decimal(out: &mut String, n: u64)
    ensures
        final(out)@ == old(out)@ + decimal(n as nat),
    decreases n,
{
    if n >= 10 {
        push_decimal(out, n / 10);
    }
    out.append(digit_str(n % 10));
    assert(out@ =~= old(out)@ + decimal(n as nat));
}

fn push_triple(out: &mut String, n: u64)
    requires
        n < 1000,
    ensures
        final(out)@ == old(out)@ + triple(n as nat),
{
    out.append(digit_str(n / 100));
    out.append(digit_str((n / 10) % 10));
    out.append(digit_str(n % 10));
    assert(out@ =~= old(out)@ + triple(n as nat));
}

/// Appends `n` in decimal to `out`, its digits in groups of three.
pub fn push_grouped(out: &mut String, n: u64)
    ensures
        final(out)@ == old(out)@ + grouped(n as nat),
    decreases n,
{
    if n >= 1000 {
        push_grouped(out, n / 1000);
        proof {
            reveal_strlit(",");
        }
        out.append(",");
        push_triple(out, n % 1000);
        assert(out@ =~= old(out)@ + grouped(n as nat));
    } else {
        push_decimal(out, n);
    }
}

/// Renders a count with a comma every three digits from the right; numbers
/// below 1000 come out as plain decimal.
pub fn format_number(num: usize) -> (text: String)
    ensures
        text@ == grouped(num as nat),
{
    let mut text = String::new();
    push_grouped(&mut text, num as u64);
    text
}

/// Renders an amount of satoshi: the grouped number, then ` SAT`.
pub fn format_sats(amount: u64) -> (text: String)
    ensures
        text@ == grouped(amount as nat) + " SAT"@,
{
    let mut text = String::new();
    push_grouped(&mut text, amount);
    text.append(" SAT");
    text
}

/// Renders a hash rate given in whole terahashes per second: the grouped
/// number, then ` Th/s`.
pub fn format_th(amount: u64) -> (text: String)
    ensures
        text@ == grouped(amount as nat) + " Th/s"@,
{
    let mut text = String::new();
    push_grouped(&mut text, amount);
    text.append(" Th/s");
    text
}

/// The text that chrono writes for the moment `timestamp` seconds after
/// 1970-01-01 00:00:00 UTC under the strftime pattern `pattern`; `None`
/// where chrono has no such moment or rejects the pattern.
pub uninterp spec fn utc_rendering(timestamp: int, pattern: Seq<char>) -> Option<Seq<char>>;

/// The view of an optional string.
pub open spec fn text_of(text: Option<String>) -> Option<Seq<char>> {
    match text {
        Some(t) => Some(t@),
        None => None,
    }
}

/// Calls `chrono::DateTime::format` on the moment that
/// `DateTime::from_timestamp` makes of the seconds (with no nanoseconds), and
/// writes the result to a fresh string with `DelayedFormat::write_to`.
/// Trusted: the outcome is what chrono computes from the two arguments, and
/// chrono computes it from nothing else (UTC, its built-in English names).
/// `None` stands for both of chrono's refusals: a moment out of its range
/// and a pattern it cannot parse or apply.
#[verifier::external_body]
fn render_utc(timestamp: i64, pattern: &str) -> (text: Option<String>)
    ensures
        text_of(text) == utc_rendering(timestamp as int, pattern@),
{
    let moment = chrono::DateTime::from_timestamp(timestamp, 0)?;
    let mut text = String::new();
    match moment.format(pattern).write_to(&mut text) {
        Ok(()) => Some(text),
        Err(_) => None,
    }
}

/// The first second of the range of moments that chrono can hold.
pub const FIRST_SECOND: i64 = -8_334_601_228_800;

/// The last second of the range of moments that chrono can hold.
pub const LAST_SECOND: i64 = 8_210_266_876_799;

/// `timestamp` moved to the nearest second between [`FIRST_SECOND`] and
/// [`LAST_SECOND`].
pub open spec fn clamped_second(timestamp: int) -> int {
    if timestamp < FIRST_SECOND {
        FIRST_SECOND as int
    } else if timestamp > LAST_SECOND {
        LAST_SECOND as int
    } else {
        timestamp
    }
}

/// The text of a rendering; nothing where there is none.
pub open spec fn or_empty(rendering: Option<Seq<char>>) -> Seq<char> {
    match rendering {
        Some(text) => text,
        None => Seq::empty(),
    }
}

/// What [`format_date`] returns: the rendering of the clamped second, or
/// nothing where there is no rendering.
pub open spec fn date_text(timestamp: int, pattern: Seq<char>) -> Seq<char> {
    or_empty(utc_rendering(clamped_second(timestamp), pattern))
}

/// Moves a timestamp to the nearest second that the calendar holds.
pub fn clamp_second(timestamp: i64) -> (second: i64)
    ensures
        second == clamped_second(timestamp as int),
{
    if timestamp < FIRST_SECOND {
        FIRST_SECOND
    } else if timestamp > LAST_SECOND {
        LAST_SECOND
    } else {
        timestamp
    }
}

/// Takes the text out of a rendering; the empty string where there is none.
pub fn rendered_or_empty(rendering: Option<String>) -> (text: String)
    ensures
        text@ == or_empty(text_of(rendering)),
{
    match rendering {
        Some(text) => text,
        None => String::new(),
    }
}

/// Renders Unix seconds as a UTC date under a strftime pattern.
///
/// A timestamp beyond the range of the calendar is rendered as the nearest
/// second inside it. A pattern that cannot be rendered gives the empty
/// string.
pub fn format_date(timestamp: i64, fmt: &str) -> (text: String)
    ensures
        text@ == date_text(timestamp as int, fmt@),
{
    rendered_or_empty(render_utc(clamp_second(timestamp), fmt))
}

/// From the thousands on, the plain decimal of `n` is that of `n / 1000`
/// followed by the three digits of the rest.
pub proof fn lemma_decimal_split(n: nat)
    requires
        n >= 1000,
    ensures
        decimal(n) == decimal(n / 1000) + triple(n % 1000),
{
    let a = n / 10;
    let b = n / 100;
    let c = n / 1000;
    assert(a / 10 == b && b / 10 == c) by (nonlinear_arith)
        requires
            a == n / 10,
            b == n / 100,
            c == n / 1000,
    ;
    assert(decimal(n) == decimal(a).push(digit((n % 10) as int)));
    assert(decimal(a) == decimal(b).push(digit((a % 10) as int)));
    assert(decimal(b) == decimal(c).push(digit((b % 10) as int)));
    let r = n % 1000;
    assert(r % 10 == n % 10 && (r / 10) % 10 == a % 10 && (r / 100) % 10 == b % 10)
        by (nonlinear_arith)
        requires
            a == n / 10,
            b == n / 100,
            r == n % 1000,
    ;
    assert(decimal(n) =~= decimal(c) + triple(r));
}

/// Plain decimal holds no comma.
pub proof fn lemma_decimal_without_commas(n: nat)
    ensures
        without_commas(decimal(n)) == decimal(n),
    decreases n,
{
    reveal(Seq::filter);
    let keep = |c: char| c != ',';
    if n < 10 {
        assert(decimal(n).drop_last() =~= Seq::<char>::empty());
        assert(decimal(n).drop_last().filter(keep) =~= Seq::<char>::empty());
        assert(decimal(n).filter(keep) =~= decimal(n));
    } else {
        lemma_decimal_without_commas(n / 10);
        assert(decimal(n).drop_last() =~= decimal(n / 10));
        assert(decimal(n).filter(keep) =~= decimal(n));
    }
}

/// Taking the commas out of the grouped form leaves the plain decimal.
pub proof fn lemma_grouped_without_commas(n: nat)
    ensures
        without_commas(grouped(n)) == decimal(n),
    decreases n,
{
    let keep = |c: char| c != ',';
    if n < 1000 {
        lemma_decimal_without_commas(n);
    } else {
        lemma_grouped_without_commas(n / 1000);
        lemma_decimal_split(n);
        let head = grouped(n / 1000);
        let comma = seq![','];
        let tail = triple(n % 1000);
        Seq::filter_distributes_over_add(head + comma, tail, keep);
        Seq::filter_distributes_over_add(head, comma, keep);
        reveal_with_fuel(Seq::filter, 4);
        assert(comma.drop_last() =~= Seq::<char>::empty());
        assert(comma.filter(keep) =~= Seq::<char>::empty());
        assert(tail.drop_last() =~= seq![tail[0], tail[1]]);
        assert(tail.drop_last().drop_last() =~= seq![tail[0]]);
        assert(tail.drop_last().drop_last().drop_last() =~= Seq::<char>::empty());
        assert(tail.filter(keep) =~= tail);
        assert(grouped(n).filter(keep) =~= decimal(n));
    }
}

/// Plain decimal of a number below 1000 has at most three characters, and
/// none of them is a comma.
pub proof fn lemma_short_decimal(n: nat)
    requires
        n < 1000,
    ensures
        1 <= decimal(n).len() <= 3,
        forall|i: int| 0 <= i < decimal(n).len() ==> decimal(n)[i] != ',',
{
    reveal_with_fuel(decimal, 3);
}

/// The commas of the grouped form stand before every group of three,
/// counted from the right: the character that has `i` characters after it
/// is a comma exactly where `i` leaves the rest 3 on division by 4. The
/// form neither starts nor ends with a comma.
pub proof fn lemma_grouped_commas(n: nat)
    ensures
        grouped(n).len() >= 1,
        grouped(n)[0] != ',',
        forall|i: int|
            0 <= i < grouped(n).len() ==> ((#[trigger] grouped(n)[grouped(n).len() - 1 - i] == ',')
                <==> i % 4 == 3),
    decreases n,
{
    if n < 1000 {
        lemma_short_decimal(n);
    } else {
        let head = grouped(n / 1000);
        let tail = triple(n % 1000);
        lemma_grouped_commas(n / 1000);
        let g = grouped(n);
        assert(g.len() == head.len() + 4);
        assert(g[0] == head[0]);
        assert forall|i: int| 0 <= i < g.len() implies ((#[trigger] g[g.len() - 1 - i] == ',')
            <==> i % 4 == 3) by {
            if i < 3 {
                assert(g[g.len() - 1 - i] == tail[2 - i]);
            } else if i == 3 {
                assert(g[g.len() - 1 - i] == ',');
            } else {
                let j = i - 4;
                assert(g[g.len() - 1 - i] == head[head.len() - 1 - j]);
                assert(j % 4 == 3 <==> i % 4 == 3);
            }
        }
    }
}

/// Reading plain decimal back gives the number.
pub proof fn lemma_decimal_value(n: nat)
    ensures
        decimal_value(decimal(n)) == n,
    decreases n,
{
    if n < 10 {
        assert(decimal(n).drop_last() =~= Seq::<char>::empty());
        assert(decimal_value(decimal(n).drop_last()) == 0);
    } else {
        lemma_decimal_value(n / 10);
        assert(decimal(n).drop_last() =~= decimal(n / 10));
        assert(decimal(n).last() == digit((n % 10) as int));
    }
}

/// Grouping changes the look of a number and nothing else: with the commas
/// taken out, the grouped form reads back as the number it was made from.
pub proof fn lemma_grouped_round_trip(n: nat)
    ensures
        decimal_value(without_commas(grouped(n))) == n,
{
    lemma_grouped_without_commas(n);
    lemma_decimal_value(n);
}

} // verus!
