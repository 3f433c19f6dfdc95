use vstd::prelude::*;
use vstd::string::*;

verus! {

/// The number of bytes that UTF-8 takes for a character.
pub open spec fn char_width(c: char) -> nat {
    let v = c as u32;
    if v < 0x80 {
        1
    } else if v < 0x800 {
        2
    } else if v < 0x10000 {
        3
    } else {
        4
    }
}

/// The number of bytes that UTF-8 takes for a text: what `len` of a Rust
/// string gives.
pub open spec fn byte_len(s: Seq<char>) -> nat
    decreases s.len(),
{
    if s.len() == 0 {
        0
    } else {
        char_width(s[0]) + byte_len(s.drop_first())
    }
}

/// The longest start of `s` that takes at most `n` bytes.
pub open spec fn take_bytes(s: Seq<char>, n: nat) -> Seq<char>
    decreases s.len(),
{
    if s.len() == 0 {
        s
    } else if char_width(s[0]) <= n {
        seq![s[0]] + take_bytes(s.drop_first(), (n - char_width(s[0])) as nat)
    } else {
        Seq::empty()
    }
}

/// Cutting `s` after `n` bytes does not split a character: `s` fits in `n`
/// bytes, or some start of it takes exactly `n` bytes.
pub open spec fn cuts_cleanly(s: Seq<char>, n: nat) -> bool {
    byte_len(s) <= n || byte_len(take_bytes(s, n)) == n
}

/// A control character: one of the general category `Cc`.
pub open spec fn is_control_char(c: char) -> bool {
    let v = c as u32;
    v <= 0x1f || (0x7f <= v && v <= 0x9f)
}

/// The control characters are the C0 codes (U+0000 to U+001F), DEL and the
/// C1 codes (U+007F to U+009F); the space and every other printable ASCII
/// character are not, nor is any character from U+00A0 on.
pub proof fn lemma_control_chars(c: char)
    ensures
        (c as u32) < 0x20 ==> is_control_char(c),
        0x7f <= (c as u32) && (c as u32) < 0xa0 ==> is_control_char(c),
        0x20 <= (c as u32) && (c as u32) < 0x7f ==> !is_control_char(c),
        (c as u32) >= 0xa0 ==> !is_control_char(c),
        !is_control_char(' '),
{
}

/// The decimal digit for `d`.
pub open spec fn digit_char(d: nat) -> char {
    if d == 0 { '0' }
    else if d == 1 { '1' }
    else if d == 2 { '2' }
    else if d == 3 { '3' }
    else if d == 4 { '4' }
    else if d == 5 { '5' }
    else if d == 6 { '6' }
    else if d == 7 { '7' }
    else if d == 8 { '8' }
    else { '9' }
}

/// The decimal notation of a number, without leading zeros.
pub open spec fn decimal(n: nat) -> Seq<char>
    decreases n,
{
    if n < 10 {
        seq![digit_char(n)]
    } else {
        decimal(n / 10).push(digit_char(n % 10))
    }
}

/// `n` spaces.
pub open spec fn spaces(n: nat) -> Seq<char> {
    Seq::new(n, |i: int| ' ')
}

/// A text that fits in `n` bytes is not cut: a line that fits the screen
/// is shown whole.
pub proof fn lemma_take_bytes_fits(s: Seq<char>, n: nat)
    requires
        byte_len(s) <= n,
    ensures
        take_bytes(s, n) == s,
    decreases s.len(),
{
    if s.len() > 0 {
        lemma_take_bytes_fits(s.drop_first(), (n - char_width(s[0])) as nat);
        assert(seq![s[0]] + s.drop_first() =~= s);
    }
}

/// Cutting a text to `n` bytes gives a start of it that takes at most `n`
/// bytes: no line cut to the screen is wider than the screen.
pub proof fn lemma_take_bytes_bounded(s: Seq<char>, n: nat)
    ensures
        byte_len(take_bytes(s, n)) <= n,
        take_bytes(s, n).len() <= s.len(),
        take_bytes(s, n) == s.take(take_bytes(s, n).len() as int),
    decreases s.len(),
{
    if s.len() > 0 && char_width(s[0]) <= n {
        let rest = take_bytes(s.drop_first(), (n - char_width(s[0])) as nat);
        lemma_take_bytes_bounded(s.drop_first(), (n - char_width(s[0])) as nat);
        assert((seq![s[0]] + rest).drop_first() =~= rest);
        assert(seq![s[0]] + rest =~= s.take(rest.len() + 1 as int));
    } else if s.len() > 0 {
        assert(take_bytes(s, n) =~= s.take(0));
    }
}

/// `byte_len` counts the bytes of the UTF-8 encoding.
pub proof fn lemma_byte_len_is_encoding_len(s: Seq<char>)
    ensures
        byte_len(s) == vstd::utf8::encode_utf8(s).len(),
    decreases s.len(),
{
    if s.len() > 0 {
        vstd::utf8::char_is_scalar(s[0]);
        lemma_byte_len_is_encoding_len(s.drop_first());
    }
}

/// Appending one character to a string.
#[verifier::external_body]
pub(crate) fn push_char(s: &mut String, c: char)
    ensures
        final(s)@ == old(s)@.push(c),
{
    s.push(c);
}

/// Whether a character is a control character.
pub fn is_control(c: char) -> (res: bool)
    ensures
        res == is_control_char(c),
{
    let v = c as u32;
    v <= 0x1f || (0x7f <= v && v <= 0x9f)
}

/// The number of bytes that UTF-8 takes for a character.
pub fn width_of(c: char) -> (res: usize)
    ensures
        res == char_width(c),
{
    let v = c as u32;
    if v < 0x80 {
        1
    } else if v < 0x800 {
        2
    } else if v < 0x10000 {
        3
    } else {
        4
    }
}

/// The decimal digit for a number below ten.
fn digit(d: usize) -> (res: char)
    requires
        d < 10,
    ensures
        res == digit_char(d as nat),
{
    if d == 0 { '0' }
    else if d == 1 { '1' }
    else if d == 2 { '2' }
    else if d == 3 { '3' }
    else if d == 4 { '4' }
    else if d == 5 { '5' }
    else if d == 6 { '6' }
    else if d == 7 { '7' }
    else if d == 8 { '8' }
    else { '9' }
}

/// The decimal notation of a number.
pub fn decimal_string(n: usize) -> (res: String)
    ensures
        res@ == decimal(n as nat),
    decreases n,
{
    if n < 10 {
        let mut s = String::new();
        push_char(&mut s, digit(n));
        s
    } else {
        let mut s = decimal_string(n / 10);
        push_char(&mut s, digit(n % 10));
        s
    }
}

/// Appends `n` spaces to a string.
pub fn push_spaces(s: &mut String, n: usize)
    ensures
        final(s)@ == old(s)@ + spaces(n as nat),
{
    let mut i: usize = 0;
    while i < n
        invariant
            i <= n,
            s@ == old(s)@ + spaces(i as nat),
        decreases n - i,
    {
        push_char(s, ' ');
        i = i + 1;
        assert(s@ =~= old(s)@ + spaces(i as nat));
    }
}

/// The longest start of a text that takes at most `n` bytes.
pub fn take_bytes_of(s: &str, n: usize) -> (res: String)
    ensures
        res@ == take_bytes(s@, n as nat),
{
    let len = s.unicode_len();
    let mut res = String::new();
    let mut used: usize = 0;
    let mut i: usize = 0;
    proof {
        assert(s@.skip(0) =~= s@);
        assert(res@ + take_bytes(s@.skip(0), n as nat) =~= take_bytes(s@, n as nat));
    }
    while i < len
        invariant
            len == s@.len(),
            i <= len,
            used <= n,
            res@ + take_bytes(s@.skip(i as int), (n - used) as nat) == take_bytes(s@, n as nat),
        ensures
            res@ == take_bytes(s@, n as nat),
        decreases len - i,
    {
        let c = s.get_char(i);
        let w = width_of(c);
        let rest = Ghost(s@.skip(i as int));
        assert(rest@[0] == c);
        assert(rest@.drop_first() =~= s@.skip(i + 1));
        if w > n - used {
            assert(take_bytes(rest@, (n - used) as nat) =~= Seq::<char>::empty());
            assert(res@ + Seq::<char>::empty() =~= res@);
            break;
        }
        let ghost before = res@;
        push_char(&mut res, c);
        used = used + w;
        i = i + 1;
        assert(res@ + take_bytes(s@.skip(i as int), (n - used) as nat) =~= before + take_bytes(rest@, (n - used + w) as nat));
    }
    proof {
        if i == len {
            assert(s@.skip(i as int) =~= Seq::<char>::empty());
            assert(res@ + Seq::<char>::empty() =~= res@);
        }
    }
    res
}

} // verus!
