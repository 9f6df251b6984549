//! Layout pieces shared by the screens: the sizes, the empty-state texts,
//! and the rectangle arithmetic. Drawing is done by the application.
use vstd::prelude::*;
use crate::text::join_with;

verus! {

pub struct DesignTokens;

impl DesignTokens {
    pub const ITEM_GAP: u16 = 1;
    pub const PADDING_MD: u16 = 1;
}

pub struct SidebarItem<'a> {
    pub icon: &'a str,
    pub label: &'a str,
}

pub enum ErrorCategory {
    EmptyHistory,
    EmptySaved,
    EmptyPlaylists,
    NoResults,
}

impl ErrorCategory {
    /// The hint shown on an empty screen.
    pub fn message(&self) -> (r: &'static str)
        ensures
            self is EmptyHistory ==> r@ == "Start watching videos to build your history"@,
            self is EmptySaved ==> r@ == "Press 's' on a video to save it here"@,
            self is EmptyPlaylists ==> r@ == "Press 'n' to create a playlist"@,
            self is NoResults ==> r@ == "Enter a search term to find videos"@,
    {
        match self {
            ErrorCategory::EmptyHistory => "Start watching videos to build your history",
            ErrorCategory::EmptySaved => "Press 's' on a video to save it here",
            ErrorCategory::EmptyPlaylists => "Press 'n' to create a playlist",
            ErrorCategory::NoResults => "Enter a search term to find videos",
        }
    }
}

/// The decimal digits of `n`, without leading zeros.
pub open spec fn decimal(n: nat) -> Seq<char>
    decreases n,
{
    if n < 10 {
        seq![digit(n)]
    } else {
        decimal(n / 10).push(digit(n % 10))
    }
}

/// The character of a digit below ten.
pub open spec fn digit(d: nat) -> char {
    (('0' as u32) + d) as char
}

/// `n` in decimal with at least two digits (`{:02}`).
pub open spec fn two_digits(n: nat) -> Seq<char> {
    if n < 10 {
        seq!['0', digit(n)]
    } else {
        decimal(n)
    }
}

/// A duration of `secs` seconds as a clock: `h:mm:ss` from an hour on,
/// `m:ss` below.
pub open spec fn clock_text(secs: nat) -> Seq<char> {
    let h = secs / 3600;
    let m = (secs % 3600) / 60;
    let s = secs % 60;
    if h > 0 {
        decimal(h) + seq![':'] + two_digits(m) + seq![':'] + two_digits(s)
    } else {
        decimal(m) + seq![':'] + two_digits(s)
    }
}

/// The number a text of decimal digits reads as.
pub open spec fn digits_value(t: Seq<char>) -> nat
    decreases t.len(),
{
    if t.len() == 0 {
        0
    } else {
        digits_value(t.drop_last()) * 10 + ((t.last() as u32) - ('0' as u32)) as nat
    }
}

/// Every character of `t` is a decimal digit.
pub open spec fn all_digits(t: Seq<char>) -> bool {
    forall|i: int| 0 <= i < t.len() ==> '0' <= #[trigger] t[i] && t[i] <= '9'
}

proof fn lemma_digit_value(d: nat)
    requires
        d < 10,
    ensures
        (digit(d) as u32) == ('0' as u32) + d,
        '0' <= digit(d) && digit(d) <= '9',
{
    assert(('0' as u32) == 48);
    assert(((48 + d) as char) as u32 == 48 + d);
}

proof fn lemma_decimal_reads_back(n: nat)
    ensures
        decimal(n).len() > 0,
        all_digits(decimal(n)),
        digits_value(decimal(n)) == n,
        n < 100 ==> decimal(n).len() <= 2,
        n >= 10 ==> decimal(n).len() >= 2,
    decreases n,
{
    assert(('0' as u32) == 48);
    lemma_digit_value(n % 10);
    if n < 10 {
        assert(decimal(n).drop_last() =~= Seq::<char>::empty());
        assert(decimal(n).last() == digit(n));
        assert(digits_value(decimal(n)) == digits_value(Seq::<char>::empty()) * 10 + ((digit(n) as u32)
            - ('0' as u32)) as nat);
    }
    if n >= 10 {
        lemma_decimal_reads_back(n / 10);
        let d = decimal(n);
        assert(d.drop_last() == decimal(n / 10));
        assert(d.last() == digit(n % 10));
        assert(digits_value(d) == n / 10 * 10 + n % 10);
        assert(n / 10 * 10 + n % 10 == n) by (nonlinear_arith);
        assert forall|i: int| 0 <= i < d.len() implies '0' <= #[trigger] d[i] && d[i] <= '9' by {
            if i < d.len() - 1 {
                assert(d[i] == decimal(n / 10)[i]);
            }
        }
        if n < 100 {
            assert(n / 10 < 10);
        }
    }
}

proof fn lemma_two_digits_read_back(n: nat)
    requires
        n < 100,
    ensures
        two_digits(n).len() == 2,
        all_digits(two_digits(n)),
        digits_value(two_digits(n)) == n,
{
    assert(('0' as u32) == 48);
    lemma_decimal_reads_back(n);
    if n < 10 {
        let t = two_digits(n);
        lemma_digit_value(n);
        lemma_digit_value(0);
        assert(digit(0) == '0');
        assert(t.drop_last() =~= seq!['0']);
        assert(seq!['0'].drop_last() =~= Seq::<char>::empty());
        assert(seq!['0'].last() == '0');
        assert(digits_value(seq!['0']) == digits_value(Seq::<char>::empty()) * 10 + (('0' as u32) - ('0' as u32)) as nat);
        assert(digits_value(seq!['0']) == 0);
        assert(t.last() == digit(n));
        assert(digits_value(t) == digits_value(seq!['0']) * 10 + n);
    }
}

/// The clock text of a duration reads back as the duration: it is two or
/// three fields of decimal digits joined by `:`, hours (never zero, when
/// present), then minutes and seconds, each below 60 and written with two
/// digits after the first field, whose values add up to `secs`.
pub proof fn law_clock_text_reads_back(secs: nat)
    ensures
        exists|f: Seq<Seq<char>>|
            {
                &&& clock_text(secs) == join_with(f, seq![':'])
                &&& forall|i: int| 0 <= i < f.len() ==> #[trigger] f[i].len() > 0 && all_digits(f[i])
                &&& f.len() == 3 ==> digits_value(f[0]) > 0 && digits_value(f[1]) < 60 && digits_value(f[2])
                    < 60 && f[1].len() == 2 && f[2].len() == 2 && digits_value(f[0]) * 3600
                    + digits_value(f[1]) * 60 + digits_value(f[2]) == secs
                &&& f.len() == 2 ==> digits_value(f[0]) < 60 && digits_value(f[1]) < 60 && f[1].len() == 2
                    && digits_value(f[0]) * 60 + digits_value(f[1]) == secs
                &&& f.len() == 2 || f.len() == 3
            },
{
    let h = secs / 3600;
    let m = (secs % 3600) / 60;
    let s = secs % 60;
    assert(h * 3600 + m * 60 + s == secs) by (nonlinear_arith)
        requires
            h == secs / 3600,
            m == (secs % 3600) / 60,
            s == secs % 60,
    ;
    assert(m < 60 && s < 60) by (nonlinear_arith)
        requires
            m == (secs % 3600) / 60,
            s == secs % 60,
    ;
    lemma_two_digits_read_back(m);
    lemma_two_digits_read_back(s);
    if h > 0 {
        lemma_decimal_reads_back(h);
        let f = seq![decimal(h), two_digits(m), two_digits(s)];
        assert(f.drop_last() =~= seq![decimal(h), two_digits(m)]);
        assert(f.drop_last().drop_last() =~= seq![decimal(h)]);
        assert(join_with(f.drop_last().drop_last(), seq![':']) == decimal(h));
        assert(join_with(f.drop_last(), seq![':']) == decimal(h) + seq![':'] + two_digits(m));
        assert(join_with(f, seq![':']) == decimal(h) + seq![':'] + two_digits(m) + seq![':'] + two_digits(s));
        assert(clock_text(secs) =~= join_with(f, seq![':']));
        assert(forall|i: int| 0 <= i < f.len() ==> #[trigger] f[i].len() > 0 && all_digits(f[i]));
    } else {
        lemma_decimal_reads_back(m);
        assert(secs == m * 60 + s);
        let f = seq![decimal(m), two_digits(s)];
        assert(f.drop_last() =~= seq![decimal(m)]);
        assert(join_with(f.drop_last(), seq![':']) == decimal(m));
        assert(join_with(f, seq![':']) == decimal(m) + seq![':'] + two_digits(s));
        assert(clock_text(secs) =~= join_with(f, seq![':']));
        assert(forall|i: int| 0 <= i < f.len() ==> #[trigger] f[i].len() > 0 && all_digits(f[i]));
    }
}

fn digit_char(d: u64) -> (r: char)
    requires
        d < 10,
    ensures
        r == digit(d as nat),
{
    let digits = ['0', '1', '2', '3', '4', '5', '6', '7', '8', '9'];
    assert(digits@ =~= seq!['0', '1', '2', '3', '4', '5', '6', '7', '8', '9']);
    let c = digits[d as usize];
    assert(c == digit(d as nat)) by {
        assert(('0' as u32) == 48);
    }
    c
}

fn push_decimal(out: &mut String, n: u64)
    ensures
        final(out)@ == old(out)@ + decimal(n as nat),
    decreases n,
{
    if n < 10 {
        out.push(digit_char(n));
    } else {
        push_decimal(out, n / 10);
        out.push(digit_char(n % 10));
    }
}

fn push_two_digits(out: &mut String, n: u64)
    ensures
        final(out)@ == old(out)@ + two_digits(n as nat),
{
    if n < 10 {
        out.push('0');
        out.push(digit_char(n));
    } else {
        push_decimal(out, n);
    }
}

/// A duration in seconds as a clock (see `clock_text`).
pub fn duration_text(secs: u64) -> (r: String)
    ensures
        r@ == clock_text(secs as nat),
{
    let h = secs / 3600;
    let m = (secs % 3600) / 60;
    let s = secs % 60;
    let mut out = String::new();
    if h > 0 {
        push_decimal(&mut out, h);
        out.push(':');
        push_two_digits(&mut out, m);
    } else {
        push_decimal(&mut out, m);
    }
    out.push(':');
    push_two_digits(&mut out, s);
    out
}


/// A rectangle of terminal cells.
pub struct Rect {
    pub x: u16,
    pub y: u16,
    pub width: u16,
    pub height: u16,
}

impl Clone for Rect {
    fn clone(&self) -> (r: Self)
        ensures
            r == *self,
    {
        Rect { x: self.x, y: self.y, width: self.width, height: self.height }
    }
}

impl Copy for Rect {}

/// `a + b`, kept at `u16::MAX` when it would overflow.
pub open spec fn sat_add(a: u16, b: u16) -> int {
    if a + b > u16::MAX {
        u16::MAX as int
    } else {
        a + b
    }
}

impl Rect {
    pub fn new(x: u16, y: u16, width: u16, height: u16) -> (r: Rect)
        ensures
            r == (Rect { x, y, width, height }),
    {
        Rect { x, y, width, height }
    }

    pub fn empty() -> (r: Rect)
        ensures
            r == (Rect { x: 0, y: 0, width: 0, height: 0 }),
    {
        Rect { x: 0, y: 0, width: 0, height: 0 }
    }

    /// The cell `(col, row)` lies inside the rectangle (whose right and
    /// bottom edges are saturating sums).
    pub open spec fn holds(self, col: u16, row: u16) -> bool {
        self.x <= col < sat_add(self.x, self.width) && self.y <= row < sat_add(self.y, self.height)
    }

    pub fn contains(&self, col: u16, row: u16) -> (r: bool)
        ensures
            r == self.holds(col, row),
    {
        let right = self.x.saturating_add(self.width);
        let bottom = self.y.saturating_add(self.height);
        col >= self.x && col < right && row >= self.y && row < bottom
    }
}

/// The rectangle of `percent_x`% by `percent_y`% of `r`, centred in it.
pub fn centered_rect(percent_x: u16, percent_y: u16, r: Rect) -> (c: Rect)
    requires
        r.width * percent_x <= u16::MAX,
        r.height * percent_y <= u16::MAX,
        r.width * percent_x / 100 <= r.width,
        r.height * percent_y / 100 <= r.height,
        r.x + (r.width - r.width * percent_x / 100) / 2 <= u16::MAX,
        r.y + (r.height - r.height * percent_y / 100) / 2 <= u16::MAX,
    ensures
        c.width == r.width * percent_x / 100,
        c.height == r.height * percent_y / 100,
        c.x == r.x + (r.width - c.width) / 2,
        c.y == r.y + (r.height - c.height) / 2,
{
    let w = r.width * percent_x / 100;
    let h = r.height * percent_y / 100;
    Rect { x: r.x + (r.width - w) / 2, y: r.y + (r.height - h) / 2, width: w, height: h }
}

} // verus!
