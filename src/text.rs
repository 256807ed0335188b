use vstd::prelude::*;
use itertools::Itertools;

verus! {

/// `n` spaces.
pub open spec fn spaces_spec(n: nat) -> Seq<char> {
    Seq::new(n, |i: int| ' ')
}

/// `s` left-aligned in a field of `width` characters: padded with spaces,
/// never truncated.
pub open spec fn pad_spec(s: Seq<char>, width: nat) -> Seq<char> {
    if s.len() < width {
        s + spaces_spec((width - s.len()) as nat)
    } else {
        s
    }
}

/// The pieces of `cells` in order, with `sep` between each two neighbours.
pub open spec fn joined(cells: Seq<Seq<char>>, sep: Seq<char>) -> Seq<char>
    decreases cells.len(),
{
    if cells.len() == 0 {
        Seq::empty()
    } else if cells.len() == 1 {
        cells[0]
    } else {
        joined(cells.drop_last(), sep) + sep + cells.last()
    }
}

/// The views of a sequence of strings.
pub open spec fn views(v: Seq<String>) -> Seq<Seq<char>> {
    v.map_values(|s: String| s@)
}

/// What bytesize prints for a number of bytes.
pub uninterp spec fn byte_size_text(bytes: u64) -> Seq<char>;

/// Relies on the `Display` impl of `bytesize::ByteSize` (decimal units) to
/// render a byte count for humans.
#[verifier::external_body]
pub(crate) fn format_bytes(bytes: u64) -> (r: String)
    ensures
        r@ == byte_size_text(bytes),
{
    bytesize::ByteSize::b(bytes).to_string()
}

/// Relies on `Itertools::intersperse`, which puts `sep` between each two
/// consecutive items; the pieces are then concatenated.
#[verifier::external_body]
pub(crate) fn join_with(cells: Vec<String>, sep: String) -> (r: String)
    ensures
        r@ == joined(views(cells@), sep@),
{
    Itertools::intersperse(cells.into_iter(), sep).collect::<String>()
}

/// A string of `n` spaces.
pub fn spaces(n: usize) -> (r: String)
    ensures
        r@ == spaces_spec(n as nat),
{
    let mut r = String::new();
    let mut i: usize = 0;
    while i < n
        invariant
            i <= n,
            r@ == spaces_spec(i as nat),
        decreases n - i,
    {
        r.append(" ");
        proof {
            reveal_strlit(" ");
        }
        i = i + 1;
        assert(r@ =~= spaces_spec(i as nat));
    }
    r
}

/// `s` padded with spaces on the right to at least `width` characters.
pub fn pad_right(s: &str, width: usize) -> (r: String)
    ensures
        r@ == pad_spec(s@, width as nat),
{
    let len = s.unicode_len();
    let mut r = s.to_string();
    if len < width {
        let fill = spaces(width - len);
        r.append(fill.as_str());
    }
    r
}

/// Relies on `String::push`, which appends one character.
#[verifier::external_body]
fn push_char(s: &mut String, c: char)
    ensures
        final(s)@ == old(s)@.push(c),
{
    s.push(c)
}

/// `c` repeated `n` times.
pub fn repeat_char(c: char, n: usize) -> (r: String)
    ensures
        r@ == Seq::new(n as nat, |i: int| c),
{
    let mut r = String::new();
    let mut i: usize = 0;
    while i < n
        invariant
            i <= n,
            r@ == Seq::new(i as nat, |k: int| c),
        decreases n - i,
    {
        push_char(&mut r, c);
        i = i + 1;
        assert(r@ =~= Seq::new(i as nat, |k: int| c));
    }
    r
}

} // verus!
