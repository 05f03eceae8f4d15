//! Message text: decimal rendering, shape rendering and string tests.
use vstd::prelude::*;
use vstd::string::*;

verus! {

/// The character of a decimal digit.
pub open spec fn digit(d: nat) -> char {
    if d == 0 { '0' } else if d == 1 { '1' } else if d == 2 { '2' } else if d == 3 { '3' }
    else if d == 4 { '4' } else if d == 5 { '5' } else if d == 6 { '6' } else if d == 7 { '7' }
    else if d == 8 { '8' } else { '9' }
}

/// Decimal digits of a natural number, most significant first, no leading zero.
pub open spec fn dec(n: nat) -> Seq<char>
    decreases n,
{
    if n < 10 { seq![digit(n)] } else { dec(n / 10).push(digit(n % 10)) }
}

/// Decimal rendering of an integer, with a leading minus sign when negative.
pub open spec fn dec_int(n: int) -> Seq<char> {
    if n < 0 { seq!['-'] + dec((-n) as nat) } else { dec(n as nat) }
}

/// The elements from `i` on, each behind a comma and a space.
pub open spec fn tail_text(s: Seq<i32>, i: int) -> Seq<char>
    decreases s.len() - i,
{
    if i >= s.len() { Seq::empty() } else { ", "@ + dec_int(s[i] as int) + tail_text(s, i + 1) }
}

/// Debug rendering of a tensor shape.
pub open spec fn shape_text(s: Seq<i32>) -> Seq<char> {
    if s.len() == 0 { "[]"@ } else { "["@ + dec_int(s[0] as int) + tail_text(s, 1) + "]"@ }
}

/// Debug rendering of an optional count.
pub open spec fn opt_text(v: Option<usize>) -> Seq<char> {
    match v {
        Some(n) => "Some("@ + dec(n as nat) + ")"@,
        None => "None"@,
    }
}

fn digit_str(d: u64) -> (r: &'static str)
    requires d < 10,
    ensures r@ == seq![digit(d as nat)],
{
    proof {
        reveal_strlit("0"); reveal_strlit("1"); reveal_strlit("2"); reveal_strlit("3");
        reveal_strlit("4"); reveal_strlit("5"); reveal_strlit("6"); reveal_strlit("7");
        reveal_strlit("8"); reveal_strlit("9");
    }
    let r: &'static str = if d == 0 { "0" } else if d == 1 { "1" } else if d == 2 { "2" }
        else if d == 3 { "3" } else if d == 4 { "4" } else if d == 5 { "5" } else if d == 6 { "6" }
        else if d == 7 { "7" } else if d == 8 { "8" } else { "9" };
    assert(r@ =~= seq![digit(d as nat)]);
    r
}

/// Decimal rendering of an unsigned number.
pub fn decimal(n: u64) -> (r: String)
    ensures r@ == dec(n as nat),
    decreases n,
{
    if n < 10 {
        digit_str(n).to_owned()
    } else {
        let head: String = decimal(n / 10);
        let r: String = head.concat(digit_str(n % 10));
        assert(r@ =~= dec(n as nat));
        r
    }
}

/// Decimal rendering of a signed number.
pub fn signed(n: i32) -> (r: String)
    ensures r@ == dec_int(n as int),
{
    if n < 0 {
        let m: i64 = -(n as i64);
        let d: String = decimal(m as u64);
        proof { reveal_strlit("-"); }
        let r: String = "-".to_owned().concat(d.as_str());
        assert("-"@ =~= seq!['-']);
        r
    } else {
        decimal(n as u64)
    }
}

/// Debug rendering of a shape.
pub fn shape_string(v: &Vec<i32>) -> (r: String)
    ensures r@ == shape_text(v@),
{
    let n: usize = v.len();
    if n == 0 {
        return "[]".to_owned();
    }
    let mut tail: String = String::new();
    let mut i: usize = n;
    assert(tail@ =~= tail_text(v@, n as int));
    while i > 1
        invariant
            1 <= i <= n == v.len(),
            tail@ == tail_text(v@, i as int),
        decreases i,
    {
        i = i - 1;
        let d: String = signed(v[i]);
        tail = ", ".to_owned().concat(d.as_str()).concat(tail.as_str());
    }
    let d: String = signed(v[0]);
    "[".to_owned().concat(d.as_str()).concat(tail.as_str()).concat("]")
}

/// Text under construction.
pub struct Text {
    s: String,
}

impl View for Text {
    type V = Seq<char>;

    closed spec fn view(&self) -> Seq<char> {
        self.s@
    }
}

/// Starts a text with a fixed piece.
pub fn text(s: &str) -> (r: Text)
    ensures r@ == s@,
{
    Text { s: s.to_owned() }
}

impl Text {
    /// Appends a string.
    pub fn lit(self, s: &str) -> (r: Text)
        ensures r@ == self@ + s@,
    {
        Text { s: self.s.concat(s) }
    }

    /// Appends a count in decimal.
    pub fn num(self, n: usize) -> (r: Text)
        ensures r@ == self@ + dec(n as nat),
    {
        let d: String = decimal(n as u64);
        Text { s: self.s.concat(d.as_str()) }
    }

    /// Appends a signed number in decimal.
    pub fn whole(self, n: i32) -> (r: Text)
        ensures r@ == self@ + dec_int(n as int),
    {
        let d: String = signed(n);
        Text { s: self.s.concat(d.as_str()) }
    }

    /// Appends the Debug rendering of a shape.
    pub fn shape(self, v: &Vec<i32>) -> (r: Text)
        ensures r@ == self@ + shape_text(v@),
    {
        let d: String = shape_string(v);
        Text { s: self.s.concat(d.as_str()) }
    }

    /// Appends the Debug rendering of an optional count.
    pub fn opt(self, v: Option<usize>) -> (r: Text)
        ensures r@ == self@ + opt_text(v),
    {
        let d: String = match v {
            Some(n) => text("Some(").num(n).lit(")").done(),
            None => "None".to_owned(),
        };
        Text { s: self.s.concat(d.as_str()) }
    }

    /// The finished string.
    pub fn done(self) -> (r: String)
        ensures r@ == self@,
    {
        self.s
    }
}

/// Lower case of an ASCII capital; every other character is left alone.
pub open spec fn lower_char(c: char) -> char {
    if 'A' <= c && c <= 'Z' { ((c as u32) + 32) as char } else { c }
}

/// A text with its ASCII capitals in lower case.
pub open spec fn lower(s: Seq<char>) -> Seq<char> {
    s.map_values(|c: char| lower_char(c))
}

/// The characters of the Unicode property `White_Space`.
pub open spec fn is_white(c: char) -> bool {
    ||| '\u{9}' <= c && c <= '\u{d}'
    ||| c == ' ' || c == '\u{85}' || c == '\u{a0}' || c == '\u{1680}'
    ||| '\u{2000}' <= c && c <= '\u{200a}'
    ||| c == '\u{2028}' || c == '\u{2029}' || c == '\u{202f}' || c == '\u{205f}' || c == '\u{3000}'
}

/// A text without the white space at its two ends.
pub open spec fn trim(s: Seq<char>) -> Seq<char>
    decreases s.len(),
{
    if s.len() > 0 && is_white(s[0]) {
        trim(s.subrange(1, s.len() as int))
    } else if s.len() > 0 && is_white(s[s.len() - 1]) {
        trim(s.subrange(0, s.len() - 1))
    } else {
        s
    }
}

/// `prefix` opens `s`.
pub open spec fn starts(s: Seq<char>, prefix: Seq<char>) -> bool {
    prefix.len() <= s.len() && s.subrange(0, prefix.len() as int) == prefix
}

/// `part` occurs somewhere in `s`.
pub open spec fn occurs(s: Seq<char>, part: Seq<char>) -> bool {
    exists|i: int| 0 <= i && #[trigger] starts_at(s, part, i)
}

/// `part` stands in `s` from position `i` on.
pub open spec fn starts_at(s: Seq<char>, part: Seq<char>, i: int) -> bool {
    i + part.len() <= s.len() && s.subrange(i, i + part.len()) == part
}

/// `str::to_ascii_lowercase`: the same text with `A` to `Z` mapped to `a` to `z` and every other
/// character unchanged.
#[verifier::external_body]
pub(crate) fn ascii_lowercase(s: &str) -> (r: String)
    ensures r@ == lower(s@),
{
    s.to_ascii_lowercase()
}

/// `str::trim`: the text without leading and trailing Unicode white space.
#[verifier::external_body]
pub(crate) fn trimmed(s: &str) -> (r: &str)
    ensures r@ == trim(s@),
{
    s.trim()
}

/// `str::strip_prefix` with a string pattern: what follows `prefix` when the text starts with it,
/// nothing otherwise.
#[verifier::external_body]
pub(crate) fn without_prefix<'a>(s: &'a str, prefix: &str) -> (r: Option<&'a str>)
    ensures
        r is Some <==> starts(s@, prefix@),
        r matches Some(rest) ==> rest@ == s@.subrange(prefix@.len() as int, s@.len() as int),
{
    s.strip_prefix(prefix)
}

/// `str::contains` with a string pattern: whether `part` matches some stretch of the text.
#[verifier::external_body]
pub(crate) fn has_part(s: &str, part: &str) -> (r: bool)
    ensures r == occurs(s@, part@),
{
    s.contains(part)
}

/// Rust's Debug rendering of a string: quoted, with its escapes.
pub uninterp spec fn debug_text(s: Seq<char>) -> Seq<char>;

/// `<str as Debug>::fmt`: the quoted and escaped form, named `debug_text`.
#[verifier::external_body]
pub(crate) fn debug_string(s: &str) -> (r: String)
    ensures r@ == debug_text(s@),
{
    format!("{s:?}")
}

/// Whether two texts are the same.
pub fn same(a: &str, b: &str) -> (r: bool)
    ensures r == (a@ == b@),
{
    a.to_owned() == b.to_owned()
}

} // verus!
