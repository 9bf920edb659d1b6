//! Character and string helpers shared by the whole library: Unicode
//! whitespace, decimal rendering, `u16` parsing and path joining.
use vstd::prelude::*;

verus! {

/// `String::push`: appends one character.
#[verifier::external_body]
pub(crate) fn push_char(s: &mut String, c: char)
    ensures
        final(s)@ == old(s)@.push(c),
{
    s.push(c);
}

/// The characters that carry the Unicode `White_Space` property, which is
/// what `char::is_whitespace` and `str::trim` go by.
pub open spec fn is_unicode_whitespace(c: char) -> bool {
    let u = c as u32;
    ||| 0x09 <= u <= 0x0d
    ||| u == 0x20
    ||| u == 0x85
    ||| u == 0xa0
    ||| u == 0x1680
    ||| 0x2000 <= u <= 0x200a
    ||| u == 0x2028
    ||| u == 0x2029
    ||| u == 0x202f
    ||| u == 0x205f
    ||| u == 0x3000
}

/// Whether `c` is Unicode whitespace.
pub fn is_whitespace(c: char) -> (b: bool)
    ensures
        b == is_unicode_whitespace(c),
{
    let u = c as u32;
    (0x09 <= u && u <= 0x0d) || u == 0x20 || u == 0x85 || u == 0xa0 || u == 0x1680 || (0x2000 <= u
        && u <= 0x200a) || u == 0x2028 || u == 0x2029 || u == 0x202f || u == 0x205f || u == 0x3000
}

/// A text is blank when trimming it leaves nothing: every character is
/// whitespace.
pub open spec fn is_blank(s: Seq<char>) -> bool {
    forall|i: int| 0 <= i < s.len() ==> #[trigger] is_unicode_whitespace(s[i])
}

/// Whether `s.trim()` is empty.
pub fn str_is_blank(s: &str) -> (b: bool)
    ensures
        b == is_blank(s@),
{
    let mut all = true;
    for c in it: s.chars()
        invariant
            it.seq() == s@,
            all == (forall|i: int| 0 <= i < it.index() ==> #[trigger] is_unicode_whitespace(s@[i])),
    {
        if !is_whitespace(c) {
            all = false;
        }
    }
    all
}

} // verus!

verus! {

/// The ASCII digit that stands for `d` (for `d < 10`).
pub open spec fn digit_char(d: nat) -> char {
    (48 + d) as char
}

/// The decimal rendering of `n`, as `format!("{}", n)` prints it.
pub open spec fn decimal(n: nat) -> Seq<char>
    decreases n,
{
    if n < 10 {
        seq![digit_char(n)]
    } else {
        decimal(n / 10).push(digit_char(n % 10))
    }
}

/// Appends the decimal rendering of `n` to `out`.
pub fn push_decimal(out: &mut String, n: u128)
    ensures
        final(out)@ == old(out)@ + decimal(n as nat),
    decreases n,
{
    if n >= 10 {
        push_decimal(out, n / 10);
    }
    let d: u8 = (n % 10) as u8;
    let c: char = (48u8 + d) as char;
    push_char(out, c);
    assert(out@ =~= old(out)@ + decimal(n as nat));
}

/// The decimal rendering of `n` as a new `String`.
pub fn decimal_string(n: u128) -> (s: String)
    ensures
        s@ == decimal(n as nat),
{
    let mut s = String::new();
    push_decimal(&mut s, n);
    assert(s@ =~= decimal(n as nat));
    s
}

} // verus!

verus! {

/// Whether `c` is one of `0`..`9`.
pub open spec fn is_ascii_digit(c: char) -> bool {
    48 <= (c as u32) <= 57
}

/// The number that a sequence of ASCII digits denotes in base ten.
pub open spec fn digits_value(s: Seq<char>) -> nat
    decreases s.len(),
{
    if s.len() == 0 {
        0
    } else {
        digits_value(s.drop_last()) * 10 + ((s.last() as u32 - 48) as nat)
    }
}

/// Whether every character of `s` is an ASCII digit.
pub open spec fn all_ascii_digits(s: Seq<char>) -> bool {
    forall|i: int| 0 <= i < s.len() ==> #[trigger] is_ascii_digit(s[i])
}

/// The digits that `str::parse::<u16>` reads: the text after an optional
/// leading `+`.
pub open spec fn unsigned_body(s: Seq<char>) -> Seq<char> {
    if s.len() > 0 && s[0] == '+' {
        s.drop_first()
    } else {
        s
    }
}

/// What `s.parse::<u16>()` gives: an optional `+`, then one or more ASCII
/// digits whose value fits in a `u16`.
pub open spec fn parse_u16_spec(s: Seq<char>) -> Option<u16> {
    let body = unsigned_body(s);
    if body.len() > 0 && all_ascii_digits(body) && digits_value(body) <= u16::MAX {
        Some(digits_value(body) as u16)
    } else {
        None
    }
}

/// The characters of `s`, one per element.
pub fn chars_of(s: &str) -> (v: Vec<char>)
    ensures
        v@ == s@,
{
    let mut v: Vec<char> = Vec::new();
    for c in it: s.chars()
        invariant
            it.seq() == s@,
            v@ == s@.take(it.index() as int),
    {
        v.push(c);
        assert(v@ =~= s@.take(it.index() + 1));
    }
    assert(v@ =~= s@);
    v
}

/// Parses a port number the way `str::parse::<u16>` does.
pub fn parse_u16(s: &str) -> (r: Option<u16>)
    ensures
        r == parse_u16_spec(s@),
{
    let cs = chars_of(s);
    let start: usize = if cs.len() > 0 && cs[0] == '+' {
        1
    } else {
        0
    };
    let ghost body = unsigned_body(s@);
    assert(body =~= cs@.subrange(start as int, cs@.len() as int));
    if start >= cs.len() {
        return None;
    }
    let mut value: u32 = 0;
    let mut i: usize = start;
    while i < cs.len()
        invariant
            start <= i <= cs.len(),
            cs@ == s@,
            body == unsigned_body(s@),
            body == cs@.subrange(start as int, cs@.len() as int),
            forall|j: int| 0 <= j < i - start ==> #[trigger] is_ascii_digit(body[j]),
            value as nat == if digits_value(body.take(i - start)) < 65536 {
                digits_value(body.take(i - start))
            } else {
                65536
            },
        decreases cs.len() - i,
    {
        let c = cs[i];
        let u: u32 = c as u32;
        if !(48 <= u && u <= 57) {
            assert(!is_ascii_digit(body[i - start]));
            return None;
        }
        let d: u32 = u - 48;
        let next: u32 = value * 10 + d;
        let ghost prefix = body.take(i - start);
        assert(body.take(i + 1 - start).drop_last() =~= prefix);
        assert(body.take(i + 1 - start).last() == c);
        value = if next < 65536 {
            next
        } else {
            65536
        };
        i = i + 1;
    }
    assert(body.take(cs.len() - start) =~= body);
    if value < 65536 {
        Some(value as u16)
    } else {
        None
    }
}

} // verus!

verus! {

/// Where `Path::join` puts a relative file name: after `dir`, with a `/`
/// between them unless `dir` is empty or already ends in one.
pub open spec fn join_path(dir: Seq<char>, name: Seq<char>) -> Seq<char> {
    if dir.len() == 0 || dir.last() == '/' {
        dir + name
    } else {
        dir + seq!['/'] + name
    }
}

/// `dir` joined with the relative file name `name`.
pub fn join_file(dir: &str, name: &str) -> (p: String)
    requires
        name@.len() > 0,
        name@[0] != '/',
    ensures
        p@ == join_path(dir@, name@),
{
    let mut out = String::from_str(dir);
    let mut last: Option<char> = None;
    for c in it: dir.chars()
        invariant
            it.seq() == dir@,
            it.index() == 0 ==> last is None,
            it.index() > 0 ==> last == Some(dir@[it.index() - 1]),
    {
        last = Some(c);
    }
    match last {
        Some(c) => {
            if c != '/' {
                out.append("/");
            }
        },
        None => {},
    }
    out.append(name);
    proof {
        reveal_strlit("/");
    }
    assert(out@ =~= join_path(dir@, name@));
    out
}

} // verus!

verus! {

proof fn decimal_facts(n: nat)
    ensures
        decimal(n).len() > 0,
        all_ascii_digits(decimal(n)),
        digits_value(decimal(n)) == n,
    decreases n,
{
    assert(digit_char(n % 10) as u32 == 48 + n % 10);
    let d = decimal(n);
    if n >= 10 {
        decimal_facts(n / 10);
        assert(d.drop_last() =~= decimal(n / 10));
        assert(d.last() == digit_char(n % 10));
        assert(digits_value(d) == digits_value(decimal(n / 10)) * 10 + n % 10);
        assert(n == (n / 10) * 10 + n % 10);
        assert forall|i: int| 0 <= i < d.len() implies #[trigger] is_ascii_digit(d[i]) by {
            if i < d.len() - 1 {
                assert(d[i] == decimal(n / 10)[i]);
            }
        }
    } else {
        assert(d.drop_last() =~= Seq::<char>::empty());
        assert(digits_value(Seq::<char>::empty()) == 0);
        assert(d.last() == digit_char(n));
        assert(n % 10 == n);
    }
}

/// A port written in decimal parses back to itself: `str::parse::<u16>`
/// undoes `format!("{}", ..)` on every `u16`.
pub proof fn decimal_parses_back(n: u16)
    ensures
        parse_u16_spec(decimal(n as nat)) == Some(n),
{
    decimal_facts(n as nat);
    let d = decimal(n as nat);
    assert(is_ascii_digit(d[0]));
    assert(unsigned_body(d) == d);
}

} // verus!
