//! Source text as a list of indented lines, and the string helpers that the
//! generators build their lines with.

use vstd::prelude::*;

verus! {

/// Mathematical value of a [`Line`].
pub struct LineView {
    pub depth: nat,
    pub text: Seq<char>,
}

/// One line of emitted source: its nesting depth and its text without
/// indentation or line break.
#[derive(Debug, Clone)]
pub struct Line {
    pub depth: usize,
    pub text: String,
}

impl View for Line {
    type V = LineView;

    open spec fn view(&self) -> LineView {
        LineView { depth: self.depth as nat, text: self.text@ }
    }
}

/// The line with the given depth and text.
pub open spec fn line(depth: nat, text: Seq<char>) -> LineView {
    LineView { depth, text }
}

/// Indentation of one line at `depth`: four spaces per level.
pub open spec fn indentation(depth: nat) -> Seq<char> {
    Seq::new(4 * depth, |i: int| ' ')
}

/// Text of one rendered line, line break included. An empty line carries no
/// indentation.
pub open spec fn rendered_line(l: LineView) -> Seq<char> {
    if l.text.len() == 0 {
        seq!['\n']
    } else {
        indentation(l.depth) + l.text + seq!['\n']
    }
}

/// Text of a whole unit: its rendered lines, one after the other.
pub open spec fn rendered(lines: Seq<LineView>) -> Seq<char> {
    lines.map_values(|l: LineView| rendered_line(l)).flatten()
}

/// A fragment of emitted source: an ordered list of lines.
#[derive(Debug, Clone)]
pub struct Code {
    pub lines: Vec<Line>,
}

impl View for Code {
    type V = Seq<LineView>;

    open spec fn view(&self) -> Seq<LineView> {
        self.lines@.map_values(|l: Line| l@)
    }
}

impl Code {
    /// The empty fragment.
    pub fn new() -> (code: Code)
        ensures
            code@ == Seq::<LineView>::empty(),
    {
        let code = Code { lines: Vec::new() };
        assert(code@ =~= Seq::<LineView>::empty());
        code
    }

    /// Number of lines.
    pub fn len(&self) -> (n: usize)
        ensures
            n == self@.len(),
    {
        self.lines.len()
    }

    /// True when the fragment holds no line.
    pub fn is_empty(&self) -> (b: bool)
        ensures
            b == (self@.len() == 0),
    {
        self.lines.len() == 0
    }

    /// Adds one line at the end.
    pub fn push_line(&mut self, depth: usize, text: String)
        ensures
            final(self)@ == old(self)@.push(line(depth as nat, text@)),
    {
        self.lines.push(Line { depth, text });
        assert(self@ =~= old(self)@.push(line(depth as nat, text@)));
    }

    /// Adds an empty line at the end.
    pub fn push_blank(&mut self)
        ensures
            final(self)@ == old(self)@.push(line(0, Seq::<char>::empty())),
    {
        self.push_line(0, String::new());
    }

    /// Adds the lines of `other` at the end, at their own depth.
    pub fn append(&mut self, other: Code)
        ensures
            final(self)@ == old(self)@ + other@,
    {
        let mut rest = other;
        self.lines.append(&mut rest.lines);
        assert(self@ =~= old(self)@ + other@);
    }

    /// The text of the fragment: every line indented by four spaces per level
    /// and closed by a line break.
    pub fn render(&self) -> (out: String)
        ensures
            out@ == rendered(self@),
    {
        let mut out = String::new();
        let n = self.lines.len();
        let ghost parts = self@.map_values(|l: LineView| rendered_line(l));
        let mut i: usize = 0;
        assert(parts.take(0) =~= Seq::<Seq<char>>::empty());
        while i < n
            invariant
                0 <= i <= n,
                n == self@.len(),
                parts == self@.map_values(|l: LineView| rendered_line(l)),
                out@ == parts.take(i as int).flatten(),
            decreases n - i,
        {
            let l = &self.lines[i];
            assert(self@[i as int] == l@);
            let ghost before = out@;
            if l.text.as_str().is_empty() {
                out.append("\n");
                proof {
                    reveal_strlit("\n");
                    assert(out@ =~= before + seq!['\n']);
                }
            } else {
                let mut d: usize = 0;
                while d < l.depth
                    invariant
                        0 <= d <= l.depth,
                        out@ == before + indentation(d as nat),
                    decreases l.depth - d,
                {
                    out.append("    ");
                    proof {
                        reveal_strlit("    ");
                        assert(out@ =~= before + indentation((d + 1) as nat));
                    }
                    d += 1;
                }
                out.append(l.text.as_str());
                out.append("\n");
                proof {
                    reveal_strlit("\n");
                    assert(out@ =~= before + (indentation(l.depth as nat) + l.text@ + seq!['\n']));
                }
            }
            proof {
                assert(out@ == before + parts[i as int]);
                assert(parts.take(i + 1) =~= parts.take(i as int).push(parts[i as int]));
                parts.take(i as int).lemma_flatten_push(parts[i as int]);
            }
            i += 1;
        }
        assert(parts.take(n as int) =~= parts);
        out
    }
}

/// Joins two pieces of text.
pub fn join2(a: &str, b: &str) -> (s: String)
    ensures
        s@ == a@ + b@,
{
    let mut s = String::from_str(a);
    s.append(b);
    s
}

/// Joins three pieces of text.
pub fn join3(a: &str, b: &str, c: &str) -> (s: String)
    ensures
        s@ == a@ + b@ + c@,
{
    let mut s = join2(a, b);
    s.append(c);
    s
}

/// Joins four pieces of text.
pub fn join4(a: &str, b: &str, c: &str, d: &str) -> (s: String)
    ensures
        s@ == a@ + b@ + c@ + d@,
{
    let mut s = join3(a, b, c);
    s.append(d);
    s
}

/// Joins five pieces of text.
pub fn join5(a: &str, b: &str, c: &str, d: &str, e: &str) -> (s: String)
    ensures
        s@ == a@ + b@ + c@ + d@ + e@,
{
    let mut s = join4(a, b, c, d);
    s.append(e);
    s
}

/// Joins six pieces of text.
pub fn join6(a: &str, b: &str, c: &str, d: &str, e: &str, f: &str) -> (s: String)
    ensures
        s@ == a@ + b@ + c@ + d@ + e@ + f@,
{
    let mut s = join5(a, b, c, d, e);
    s.append(f);
    s
}

/// Joins seven pieces of text.
pub fn join7(a: &str, b: &str, c: &str, d: &str, e: &str, f: &str, g: &str) -> (s: String)
    ensures
        s@ == a@ + b@ + c@ + d@ + e@ + f@ + g@,
{
    let mut s = join6(a, b, c, d, e, f);
    s.append(g);
    s
}

/// The decimal digit `d`, as text.
pub open spec fn digit_text(d: nat) -> Seq<char> {
    if d == 0 {
        "0"@
    } else if d == 1 {
        "1"@
    } else if d == 2 {
        "2"@
    } else if d == 3 {
        "3"@
    } else if d == 4 {
        "4"@
    } else if d == 5 {
        "5"@
    } else if d == 6 {
        "6"@
    } else if d == 7 {
        "7"@
    } else if d == 8 {
        "8"@
    } else {
        "9"@
    }
}

/// The number `n` in decimal, without leading zeros.
pub open spec fn decimal(n: nat) -> Seq<char>
    decreases n,
{
    if n < 10 {
        digit_text(n)
    } else {
        decimal(n / 10) + digit_text(n % 10)
    }
}

/// The integer `v` in decimal, with a minus sign when it is negative.
pub open spec fn signed_decimal(v: int) -> Seq<char> {
    if v < 0 {
        "-"@ + decimal((-v) as nat)
    } else {
        decimal(v as nat)
    }
}

fn digit_str(d: u64) -> (s: &'static str)
    requires
        d < 10,
    ensures
        s@ == digit_text(d as nat),
{
    if d == 0 {
        "0"
    } else if d == 1 {
        "1"
    } else if d == 2 {
        "2"
    } else if d == 3 {
        "3"
    } else if d == 4 {
        "4"
    } else if d == 5 {
        "5"
    } else if d == 6 {
        "6"
    } else if d == 7 {
        "7"
    } else if d == 8 {
        "8"
    } else {
        "9"
    }
}

/// Writes `n` in decimal.
pub fn decimal_string(n: u64) -> (s: String)
    ensures
        s@ == decimal(n as nat),
    decreases n,
{
    if n < 10 {
        String::from_str(digit_str(n))
    } else {
        let mut s = decimal_string(n / 10);
        s.append(digit_str(n % 10));
        s
    }
}

/// Writes `v` in decimal, with a minus sign when it is negative.
pub fn signed_decimal_string(v: i64) -> (s: String)
    ensures
        s@ == signed_decimal(v as int),
{
    if v < 0 {
        let magnitude: u64 = ((-(v + 1)) as u64) + 1;
        let digits = decimal_string(magnitude);
        join2("-", digits.as_str())
    } else {
        decimal_string(v as u64)
    }
}

/// The concatenation of the first `i + 1` parts is that of the first `i`
/// followed by part `i`.
pub proof fn lemma_flatten_step<A>(parts: Seq<Seq<A>>, i: int)
    requires
        0 <= i < parts.len(),
    ensures
        parts.take(i + 1).flatten() == parts.take(i).flatten() + parts[i],
{
    assert(parts.take(i + 1) =~= parts.take(i).push(parts[i]));
    parts.take(i).lemma_flatten_push(parts[i]);
}

/// The concatenation of no parts is empty, and that of all parts is the
/// whole.
pub proof fn lemma_flatten_bounds<A>(parts: Seq<Seq<A>>)
    ensures
        parts.take(0).flatten() == Seq::<A>::empty(),
        parts.take(parts.len() as int).flatten() == parts.flatten(),
{
    assert(parts.take(0) =~= Seq::<Seq<A>>::empty());
    assert(parts.take(parts.len() as int) =~= parts);
}

/// A text between a fixed opening and a fixed closing determines the whole,
/// and the whole determines the text.
pub proof fn lemma_enclosed_text_injective(
    opening: Seq<char>,
    a: Seq<char>,
    b: Seq<char>,
    closing: Seq<char>,
)
    requires
        opening + a + closing == opening + b + closing,
    ensures
        a == b,
{
    let whole_a = opening + a + closing;
    let whole_b = opening + b + closing;
    assert(whole_a.len() == opening.len() + a.len() + closing.len());
    assert(whole_b.len() == opening.len() + b.len() + closing.len());
    assert(a =~= whole_a.subrange(opening.len() as int, (opening.len() + a.len()) as int));
    assert(b =~= whole_b.subrange(opening.len() as int, (opening.len() + b.len()) as int));
}

/// What the standard library returns as the lowercase form of `s`.
pub uninterp spec fn lowercase(s: Seq<char>) -> Seq<char>;

/// What the standard library returns as the uppercase form of `s`.
pub uninterp spec fn uppercase(s: Seq<char>) -> Seq<char>;

/// Calls `str::to_lowercase`. The result depends on the characters of `s`
/// alone; the contract gives it its name and claims nothing else of it.
#[verifier::external_body]
pub(crate) fn std_to_lowercase(s: &str) -> (converted: String)
    ensures
        converted@ == lowercase(s@),
{
    s.to_lowercase()
}

/// Calls `str::to_uppercase`. The result depends on the characters of `s`
/// alone; the contract gives it its name and claims nothing else of it.
#[verifier::external_body]
pub(crate) fn std_to_uppercase(s: &str) -> (converted: String)
    ensures
        converted@ == uppercase(s@),
{
    s.to_uppercase()
}

} // verus!
