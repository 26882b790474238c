//! Canonical textual rendering of values.
//!
//! Every type that can be fed to the buffer implements [`Render`]: a spec
//! function giving its rendering as a sequence of characters, and an
//! executable function proved to produce exactly that sequence. Integers
//! render as base-ten digit sequences with an optional leading `-`, booleans
//! as `true`/`false`, characters as themselves, and strings unchanged.

use vstd::prelude::*;
use vstd::string::StrSliceExecFns;

verus! {

/// The decimal digit character for `d`, which is expected to lie below ten.
pub open spec fn digit_char(d: int) -> char {
    if d == 0 {
        '0'
    } else if d == 1 {
        '1'
    } else if d == 2 {
        '2'
    } else if d == 3 {
        '3'
    } else if d == 4 {
        '4'
    } else if d == 5 {
        '5'
    } else if d == 6 {
        '6'
    } else if d == 7 {
        '7'
    } else if d == 8 {
        '8'
    } else {
        '9'
    }
}

/// Base-ten rendering of a nonnegative integer, most significant digit first.
pub open spec fn uint_rendering(n: int) -> Seq<char>
    recommends
        n >= 0,
    decreases n,
{
    if n < 10 {
        seq![digit_char(n)]
    } else {
        uint_rendering(n / 10).push(digit_char(n % 10))
    }
}

/// Base-ten rendering of an integer: negative values carry a leading `-`.
pub open spec fn int_rendering(n: int) -> Seq<char> {
    if n < 0 {
        seq!['-'] + uint_rendering(-n)
    } else {
        uint_rendering(n)
    }
}

/// Rendering of a boolean: the word `true` or the word `false`.
pub open spec fn bool_rendering(b: bool) -> Seq<char> {
    if b {
        seq!['t', 'r', 'u', 'e']
    } else {
        seq!['f', 'a', 'l', 's', 'e']
    }
}

/// Rendering of a single character: the character itself.
pub open spec fn char_rendering(c: char) -> Seq<char> {
    seq![c]
}

/// The first `n` characters of `s`, or all of `s` when it is shorter.
pub open spec fn clip(s: Seq<char>, n: int) -> Seq<char> {
    if n < s.len() {
        s.subrange(0, n)
    } else {
        s
    }
}

/// A value with a canonical textual rendering.
///
/// `rendering` states what the text is; `render_chars` produces it and is
/// proved to match.
pub trait Render {
    /// The canonical rendering, as a sequence of characters.
    spec fn rendering(&self) -> Seq<char>;

    /// Produce the rendering as a character vector.
    fn render_chars(&self) -> (r: Vec<char>)
        ensures
            r@ == self.rendering(),
    ;
}

/// The concatenation of a sequence of renderings, in order.
pub open spec fn renderings_concat(rs: Seq<Seq<char>>) -> Seq<char>
    decreases rs.len(),
{
    if rs.len() == 0 {
        Seq::empty()
    } else {
        rs[0] + renderings_concat(rs.drop_first())
    }
}

/// Appending one further rendering extends the concatenation on the right.
///
/// Together with the contract of `StringBuilder::append` this shows that
/// after any sequence of appends the buffer renders to the concatenation of
/// each call's rendering, in call order.
pub proof fn lemma_renderings_concat_push(rs: Seq<Seq<char>>, r: Seq<char>)
    ensures
        renderings_concat(rs.push(r)) == renderings_concat(rs) + r,
    decreases rs.len(),
{
    if rs.len() == 0 {
        assert(rs.push(r).drop_first() =~= Seq::<Seq<char>>::empty());
        assert(renderings_concat(Seq::<Seq<char>>::empty()) == Seq::<char>::empty());
        assert(renderings_concat(rs.push(r)) == r + Seq::<char>::empty());
        assert(renderings_concat(rs.push(r)) =~= renderings_concat(rs) + r);
    } else {
        assert(rs.push(r).drop_first() =~= rs.drop_first().push(r));
        lemma_renderings_concat_push(rs.drop_first(), r);
        assert(renderings_concat(rs.push(r)) =~= renderings_concat(rs) + r);
    }
}

/// The decimal digit character for `d`.
fn digit_to_char(d: u64) -> (c: char)
    requires
        d < 10,
    ensures
        c == digit_char(d as int),
{
    if d == 0 {
        '0'
    } else if d == 1 {
        '1'
    } else if d == 2 {
        '2'
    } else if d == 3 {
        '3'
    } else if d == 4 {
        '4'
    } else if d == 5 {
        '5'
    } else if d == 6 {
        '6'
    } else if d == 7 {
        '7'
    } else if d == 8 {
        '8'
    } else {
        '9'
    }
}

/// The base-ten digits of `n`, most significant first.
fn uint_chars(n: u64) -> (r: Vec<char>)
    ensures
        r@ == uint_rendering(n as int),
    decreases n,
{
    if n < 10 {
        let c = digit_to_char(n);
        let mut r: Vec<char> = Vec::new();
        r.push(c);
        proof {
            assert(r@ =~= uint_rendering(n as int));
        }
        r
    } else {
        let mut r = uint_chars(n / 10);
        let c = digit_to_char(n % 10);
        r.push(c);
        r
    }
}

/// The base-ten rendering of `n`, with a leading `-` when it is negative.
fn int_chars(n: i64) -> (r: Vec<char>)
    ensures
        r@ == int_rendering(n as int),
{
    if n >= 0 {
        uint_chars(n as u64)
    } else {
        let magnitude: u64 = if n == i64::MIN {
            9223372036854775808u64
        } else {
            (-n) as u64
        };
        let mut r: Vec<char> = Vec::new();
        r.push('-');
        let mut digits = uint_chars(magnitude);
        r.append(&mut digits);
        proof {
            assert(r@ =~= int_rendering(n as int));
        }
        r
    }
}

/// The characters of a string slice, in order.
fn str_chars(s: &str) -> (r: Vec<char>)
    ensures
        r@ == s@,
{
    let n = s.unicode_len();
    let mut r: Vec<char> = Vec::new();
    let mut i: usize = 0;
    while i < n
        invariant
            n == s@.len(),
            i <= n,
            r@ == s@.subrange(0, i as int),
        decreases n - i,
    {
        let c = s.get_char(i);
        r.push(c);
        proof {
            assert(s@.subrange(0, i + 1 as int) =~= s@.subrange(0, i as int).push(s@[i as int]));
        }
        i += 1;
    }
    proof {
        assert(r@ =~= s@);
    }
    r
}

impl Render for i64 {
    open spec fn rendering(&self) -> Seq<char> {
        int_rendering(*self as int)
    }

    fn render_chars(&self) -> (r: Vec<char>)
        ensures
            r@ == self.rendering(),
    {
        int_chars(*self)
    }
}

impl Render for i32 {
    open spec fn rendering(&self) -> Seq<char> {
        int_rendering(*self as int)
    }

    fn render_chars(&self) -> (r: Vec<char>)
        ensures
            r@ == self.rendering(),
    {
        int_chars(*self as i64)
    }
}

impl Render for u64 {
    open spec fn rendering(&self) -> Seq<char> {
        uint_rendering(*self as int)
    }

    fn render_chars(&self) -> (r: Vec<char>)
        ensures
            r@ == self.rendering(),
    {
        uint_chars(*self)
    }
}

impl Render for u32 {
    open spec fn rendering(&self) -> Seq<char> {
        uint_rendering(*self as int)
    }

    fn render_chars(&self) -> (r: Vec<char>)
        ensures
            r@ == self.rendering(),
    {
        uint_chars(*self as u64)
    }
}

impl Render for usize {
    open spec fn rendering(&self) -> Seq<char> {
        uint_rendering(*self as int)
    }

    fn render_chars(&self) -> (r: Vec<char>)
        ensures
            r@ == self.rendering(),
    {
        uint_chars(*self as u64)
    }
}

impl Render for bool {
    open spec fn rendering(&self) -> Seq<char> {
        bool_rendering(*self)
    }

    fn render_chars(&self) -> (r: Vec<char>)
        ensures
            r@ == self.rendering(),
    {
        let r: Vec<char> = if *self {
            vec!['t', 'r', 'u', 'e']
        } else {
            vec!['f', 'a', 'l', 's', 'e']
        };
        proof {
            assert(r@ =~= bool_rendering(*self));
        }
        r
    }
}

impl Render for char {
    open spec fn rendering(&self) -> Seq<char> {
        char_rendering(*self)
    }

    fn render_chars(&self) -> (r: Vec<char>)
        ensures
            r@ == self.rendering(),
    {
        let r: Vec<char> = vec![*self];
        proof {
            assert(r@ =~= char_rendering(*self));
        }
        r
    }
}

impl<'a> Render for &'a str {
    open spec fn rendering(&self) -> Seq<char> {
        (*self)@
    }

    fn render_chars(&self) -> (r: Vec<char>)
        ensures
            r@ == self.rendering(),
    {
        str_chars(*self)
    }
}

impl Render for String {
    open spec fn rendering(&self) -> Seq<char> {
        self@
    }

    fn render_chars(&self) -> (r: Vec<char>)
        ensures
            r@ == self.rendering(),
    {
        str_chars(self.as_str())
    }
}

} // verus!
