use vstd::prelude::*;

use crate::config;

verus! {

/// Byte that ends the index segment of a selector's output line (`:`).
pub const INDEX_SEPARATOR: u8 = 58;

/// Whether the user picks exactly one entry or possibly several.
#[derive(Clone, Copy, Debug, PartialEq, Eq)]
pub enum SelectionMode {
    Single,
    Multiple,
}

/// The views of a sequence of strings.
pub open spec fn strings_view(v: Seq<String>) -> Seq<Seq<char>> {
    v.map_values(|s: String| s@)
}

/// Decimal digits of `n`, most significant first, without leading zeros.
pub open spec fn decimal_text(n: nat) -> Seq<char>
    decreases n,
{
    if n < 10 {
        seq![digit_char(n)]
    } else {
        decimal_text(n / 10) + seq![digit_char(n % 10)]
    }
}

pub open spec fn digit_char(d: nat) -> char {
    if d == 0 { '0' } else if d == 1 { '1' } else if d == 2 { '2' } else if d == 3 { '3' }
    else if d == 4 { '4' } else if d == 5 { '5' } else if d == 6 { '6' } else if d == 7 { '7' }
    else if d == 8 { '8' } else { '9' }
}

fn digit_text(d: usize) -> (r: String)
    requires
        d < 10,
    ensures
        r@ == seq![digit_char(d as nat)],
{
    if d == 0 {
        proof {
            reveal_strlit("0");
        }
        String::from_str("0")
    } else if d == 1 {
        proof {
            reveal_strlit("1");
        }
        String::from_str("1")
    } else if d == 2 {
        proof {
            reveal_strlit("2");
        }
        String::from_str("2")
    } else if d == 3 {
        proof {
            reveal_strlit("3");
        }
        String::from_str("3")
    } else if d == 4 {
        proof {
            reveal_strlit("4");
        }
        String::from_str("4")
    } else if d == 5 {
        proof {
            reveal_strlit("5");
        }
        String::from_str("5")
    } else if d == 6 {
        proof {
            reveal_strlit("6");
        }
        String::from_str("6")
    } else if d == 7 {
        proof {
            reveal_strlit("7");
        }
        String::from_str("7")
    } else if d == 8 {
        proof {
            reveal_strlit("8");
        }
        String::from_str("8")
    } else {
        proof {
            reveal_strlit("9");
        }
        String::from_str("9")
    }
}

fn usize_to_decimal(n: usize) -> (r: String)
    ensures
        r@ == decimal_text(n as nat),
{
    let mut m: usize = n;
    let mut acc = String::new();
    while m >= 10
        invariant
            decimal_text(n as nat) == decimal_text(m as nat) + acc@,
        decreases m,
    {
        let d = digit_text(m % 10);
        let ghost before = acc@;
        acc = d.concat(acc.as_str());
        proof {
            assert(decimal_text(m as nat) == decimal_text((m / 10) as nat) + seq![
                digit_char((m % 10) as nat),
            ]);
            assert(decimal_text(n as nat) =~= decimal_text((m / 10) as nat) + acc@);
        }
        m = m / 10;
    }
    let d = digit_text(m);
    d.concat(acc.as_str())
}

/// Arguments that fuzzel gets for the given menu width and prompt, before the
/// user's own.
pub open spec fn fuzzel_flags(menu_length: usize, menu_prompt: Seq<char>) -> Seq<Seq<char>> {
    seq!["--dmenu"@, "--width"@, decimal_text(menu_length as nat), "--prompt"@, menu_prompt]
}

pub open spec fn is_digit(b: u8) -> bool {
    48 <= b <= 57
}

/// Value of a string of decimal digits, most significant first.
pub open spec fn digits_value(s: Seq<u8>) -> nat
    decreases s.len(),
{
    if s.len() == 0 {
        0
    } else {
        digits_value(s.drop_last()) * 10 + (s.last() - 48) as nat
    }
}

/// Position of the first separator at or after `i`, or the length when there is none.
pub open spec fn separator_from(s: Seq<u8>, i: int) -> int
    decreases s.len() - i,
{
    if i >= s.len() {
        s.len() as int
    } else if s[i] == INDEX_SEPARATOR {
        i
    } else {
        separator_from(s, i + 1)
    }
}

/// The bytes before the first separator (all of them when there is none).
pub open spec fn first_segment(s: Seq<u8>) -> Seq<u8> {
    s.take(separator_from(s, 0))
}

/// The digits of an unsigned number, after an optional leading `+`.
pub open spec fn unsigned_digits(s: Seq<u8>) -> Seq<u8> {
    if s.len() > 0 && s[0] == 43 {
        s.skip(1)
    } else {
        s
    }
}

/// An unsigned decimal number as `str::parse::<usize>` reads it: an optional
/// `+`, then at least one digit, with a value that fits in `usize`.
pub open spec fn parse_unsigned(s: Seq<u8>) -> Option<usize> {
    let d = unsigned_digits(s);
    if d.len() > 0 && (forall|i: int| 0 <= i < d.len() ==> is_digit(#[trigger] d[i]))
        && digits_value(d) <= usize::MAX {
        Some(digits_value(d) as usize)
    } else {
        None
    }
}

/// The indices that a selector's output designates: the number before the first
/// separator if it is one, and nothing otherwise.
pub open spec fn selected_indices(data: Seq<u8>) -> Seq<usize> {
    match parse_unsigned(first_segment(data)) {
        Some(n) => seq![n],
        None => seq![],
    }
}

proof fn lemma_prefix_value_le(s: Seq<u8>, m: int)
    requires
        0 <= m <= s.len(),
    ensures
        digits_value(s.take(m)) <= digits_value(s),
    decreases s.len(),
{
    if m < s.len() {
        lemma_prefix_value_le(s.drop_last(), m);
        assert(s.drop_last().take(m) =~= s.take(m));
    } else {
        assert(s.take(m) =~= s);
    }
}

fn separator_position(data: &[u8]) -> (r: usize)
    ensures
        r <= data@.len(),
        r as int == separator_from(data@, 0),
{
    let mut i: usize = 0;
    while i < data.len() && data[i] != INDEX_SEPARATOR
        invariant
            i <= data@.len(),
            separator_from(data@, i as int) == separator_from(data@, 0),
        decreases data@.len() - i,
    {
        i = i + 1;
    }
    i
}

fn parse_unsigned_prefix(data: &[u8], end: usize) -> (r: Option<usize>)
    requires
        end <= data@.len(),
    ensures
        r == parse_unsigned(data@.take(end as int)),
{
    let ghost seg = data@.take(end as int);
    let start: usize = if end > 0 && data[0] == 43 { 1 } else { 0 };
    let ghost d = unsigned_digits(seg);
    assert(d =~= data@.subrange(start as int, end as int));
    if start == end {
        return None;
    }
    let mut acc: usize = 0;
    let mut k: usize = start;
    assert(data@.subrange(start as int, start as int) =~= Seq::<u8>::empty());
    while k < end
        invariant
            start <= k <= end <= data@.len(),
            seg == data@.take(end as int),
            d == unsigned_digits(seg),
            d == data@.subrange(start as int, end as int),
            acc as nat == digits_value(data@.subrange(start as int, k as int)),
            forall|j: int| start <= j < k ==> is_digit(#[trigger] data@[j]),
        decreases end - k,
    {
        let b = data[k];
        let ghost next = data@.subrange(start as int, k + 1);
        assert(next.drop_last() =~= data@.subrange(start as int, k as int));
        if b < 48 || b > 57 {
            assert(!is_digit(d[k - start]));
            assert(parse_unsigned(seg).is_none());
            return None;
        }
        let step = match acc.checked_mul(10) {
            Some(t) => t.checked_add((b - 48) as usize),
            None => None,
        };
        match step {
            Some(v) => {
                acc = v;
            },
            None => {
                proof {
                    assert(next =~= d.take(k + 1 - start));
                    lemma_prefix_value_le(d, k + 1 - start);
                    assert(digits_value(d) > usize::MAX);
                    assert(parse_unsigned(seg).is_none());
                }
                return None;
            },
        }
        k = k + 1;
    }
    assert(data@.subrange(start as int, k as int) =~= d);
    assert forall|i: int| 0 <= i < d.len() implies is_digit(#[trigger] d[i]) by {
        assert(d[i] == data@[start + i]);
    }
    Some(acc)
}

/// Runtime form of a fuzzel selector: what it shows and the flags it is given.
#[derive(Clone, Debug, PartialEq, Eq)]
pub struct Fuzzel {
    line_length: usize,
    menu_length: usize,
    menu_prompt: String,
    extra_arguments: Vec<String>,
}

/// What a `Fuzzel` holds, as plain values.
pub struct FuzzelView {
    pub line_length: usize,
    pub menu_length: usize,
    pub menu_prompt: Seq<char>,
    pub extra_arguments: Seq<Seq<char>>,
}

impl View for Fuzzel {
    type V = FuzzelView;

    closed spec fn view(&self) -> FuzzelView {
        FuzzelView {
            line_length: self.line_length,
            menu_length: self.menu_length,
            menu_prompt: self.menu_prompt@,
            extra_arguments: strings_view(self.extra_arguments@),
        }
    }
}

proof fn lemma_strings_view_push(a: Seq<String>, x: String)
    ensures
        strings_view(a.push(x)) == strings_view(a).push(x@),
{
    assert forall|j: int| 0 <= j < a.len() + 1 implies #[trigger] strings_view(a.push(x))[j]
        == strings_view(a).push(x@)[j] by {
        if j < a.len() {
            assert(a.push(x)[j] == a[j]);
        }
    }
    assert(strings_view(a.push(x)) =~= strings_view(a).push(x@));
}

impl From<config::Fuzzel> for Fuzzel {
    /// Builds the selector from its configuration.
    fn from(c: config::Fuzzel) -> (r: Fuzzel)
        ensures
            r@ == Fuzzel::from_config(c),
    {
        Fuzzel {
            line_length: c.line_length,
            menu_length: c.menu_length,
            menu_prompt: c.menu_prompt,
            extra_arguments: c.extra_arguments,
        }
    }
}

impl vstd::std_specs::convert::FromSpecImpl<config::Fuzzel> for Fuzzel {
    open spec fn obeys_from_spec() -> bool {
        true
    }

    closed spec fn from_spec(c: config::Fuzzel) -> Fuzzel {
        Fuzzel {
            line_length: c.line_length,
            menu_length: c.menu_length,
            menu_prompt: c.menu_prompt,
            extra_arguments: c.extra_arguments,
        }
    }
}

impl Fuzzel {
    pub open spec fn from_config(c: config::Fuzzel) -> FuzzelView {
        FuzzelView {
            line_length: c.line_length,
            menu_length: c.menu_length,
            menu_prompt: c.menu_prompt@,
            extra_arguments: strings_view(c.extra_arguments@),
        }
    }

    /// Name of the executable to run.
    pub fn program(&self) -> (r: String)
        ensures
            r@ == "fuzzel"@,
    {
        String::from_str("fuzzel")
    }

    /// Command-line arguments for one run: fuzzel's own flags, then the
    /// user's extra arguments in their order. Fuzzel has no flag for picking
    /// several entries, so the mode does not change them.
    pub fn args(&self, _selection_mode: SelectionMode) -> (r: Vec<String>)
        ensures
            strings_view(r@) == fuzzel_flags(self@.menu_length, self@.menu_prompt)
                + self@.extra_arguments,
    {
        let mut r: Vec<String> = Vec::new();
        r.push(String::from_str("--dmenu"));
        r.push(String::from_str("--width"));
        r.push(usize_to_decimal(self.menu_length));
        r.push(String::from_str("--prompt"));
        r.push(self.menu_prompt.clone());
        let ghost flags = r@;
        assert(strings_view(flags) =~= fuzzel_flags(self@.menu_length, self@.menu_prompt));
        let mut i: usize = 0;
        while i < self.extra_arguments.len()
            invariant
                i <= self.extra_arguments@.len(),
                r@.len() == 5 + i,
                strings_view(r@) == strings_view(flags) + strings_view(
                    self.extra_arguments@.take(i as int),
                ),
            decreases self.extra_arguments@.len() - i,
        {
            let s = self.extra_arguments[i].clone();
            proof {
                assert(self.extra_arguments@.take(i + 1) =~= self.extra_arguments@.take(
                    i as int,
                ).push(self.extra_arguments@[i as int]));
            }
            let ghost before = r@;
            let ghost item = s;
            r.push(s);
            proof {
                lemma_strings_view_push(before, item);
                lemma_strings_view_push(self.extra_arguments@.take(i as int), item);
                assert(strings_view(r@) =~= strings_view(flags) + strings_view(
                    self.extra_arguments@.take(i + 1),
                ));
            }
            i = i + 1;
        }
        assert(self.extra_arguments@.take(i as int) =~= self.extra_arguments@);
        r
    }

    /// Replaces the arguments passed after fuzzel's own flags.
    pub fn set_extra_arguments(&mut self, arguments: &[String])
        ensures
            final(self)@ == (FuzzelView { extra_arguments: strings_view(arguments@), ..old(self)@ }),
    {
        let mut v: Vec<String> = Vec::new();
        let mut i: usize = 0;
        while i < arguments.len()
            invariant
                i <= arguments@.len(),
                strings_view(v@) == strings_view(arguments@.take(i as int)),
            decreases arguments@.len() - i,
        {
            let s = arguments[i].clone();
            proof {
                assert(arguments@.take(i + 1) =~= arguments@.take(i as int).push(
                    arguments@[i as int],
                ));
            }
            let ghost before = v@;
            let ghost item = s;
            v.push(s);
            proof {
                lemma_strings_view_push(before, item);
                lemma_strings_view_push(arguments@.take(i as int), item);
            }
            i = i + 1;
        }
        assert(arguments@.take(i as int) =~= arguments@);
        self.extra_arguments = v;
    }

    /// Replaces the longest entry text shown.
    pub fn set_line_length(&mut self, line_length: usize)
        ensures
            final(self)@ == (FuzzelView { line_length, ..old(self)@ }),
    {
        self.line_length = line_length;
    }

    /// Replaces the menu width.
    pub fn set_menu_length(&mut self, menu_length: usize)
        ensures
            final(self)@ == (FuzzelView { menu_length, ..old(self)@ }),
    {
        self.menu_length = menu_length;
    }

    /// Decodes fuzzel's output into the chosen indices. Any input is accepted:
    /// output that does not start with an index reads as nothing chosen.
    pub fn parse_output(&self, data: &[u8]) -> (r: Vec<usize>)
        ensures
            r@ == selected_indices(data@),
    {
        let end = separator_position(data);
        let mut r: Vec<usize> = Vec::new();
        match parse_unsigned_prefix(data, end) {
            Some(n) => {
                r.push(n);
            },
            None => {},
        }
        assert(r@ =~= selected_indices(data@));
        r
    }
}

} // verus!
