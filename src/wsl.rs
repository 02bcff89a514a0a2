use vstd::prelude::*;

verus! {

/// The 16-bit units of a byte sequence read two bytes at a time, low byte
/// first.
pub open spec fn utf16le_units(bytes: Seq<u8>) -> Seq<u16> {
    Seq::new(
        bytes.len() / 2,
        |k: int| (bytes[2 * k] as int + 256 * bytes[2 * k + 1] as int) as u16,
    )
}

/// The text that a sequence of UTF-16 units encodes, or `None` where the
/// units are not valid UTF-16: a unit outside `0xD800..=0xDFFF` stands for
/// itself, a high surrogate followed by a low one stands for one character
/// above `0xFFFF`, and any other surrogate is invalid.
pub open spec fn utf16_text(units: Seq<u16>) -> Option<Seq<char>>
    decreases units.len(),
{
    if units.len() == 0 {
        Some(Seq::empty())
    } else if units[0] < 0xD800 || units[0] > 0xDFFF {
        match utf16_text(units.drop_first()) {
            Some(rest) => Some(seq![(units[0] as u32) as char] + rest),
            None => None,
        }
    } else if units[0] <= 0xDBFF && units.len() >= 2 && 0xDC00 <= units[1] <= 0xDFFF {
        let scalar = 0x10000 + (units[0] - 0xD800) * 0x400 + (units[1] - 0xDC00);
        match utf16_text(units.subrange(2, units.len() as int)) {
            Some(rest) => Some(seq![(scalar as u32) as char] + rest),
            None => None,
        }
    } else {
        None
    }
}

/// `[i, j)` is one line of `s`: it starts at the beginning or after a
/// newline, holds no newline, and ends at a newline or, if not empty, at the
/// end of the text.
pub open spec fn is_line(s: Seq<char>, i: int, j: int) -> bool {
    &&& 0 <= i <= j <= s.len()
    &&& (i == 0 || s[i - 1] == '\n')
    &&& forall|m: int| i <= m < j ==> s[m] != '\n'
    &&& ((j < s.len() && s[j] == '\n') || (j == s.len() && i < j))
}

/// The text of the line `[i, j)` of `s`: a carriage return that stands
/// right before the line's newline is not part of it.
pub open spec fn line_text(s: Seq<char>, i: int, j: int) -> Seq<char> {
    if j < s.len() && i < j && s[j - 1] == '\r' {
        s.subrange(i, j - 1)
    } else {
        s.subrange(i, j)
    }
}

/// Whether some line of `s` is exactly `target`.
pub open spec fn has_line(s: Seq<char>, target: Seq<char>) -> bool {
    exists|i: int, j: int| #[trigger] is_line(s, i, j) && line_text(s, i, j) == target
}

/// Whether the listing printed by `wsl -l -q` (UTF-16, low byte first)
/// names `distro` on a line of its own. A listing of odd length or that is
/// not valid UTF-16 names nothing.
pub open spec fn listing_names(output: Seq<u8>, distro: Seq<char>) -> bool {
    output.len() % 2 == 0 && match utf16_text(utf16le_units(output)) {
        Some(text) => has_line(text, distro),
        None => false,
    }
}

/// Relies on `String::from_utf16`: decodes UTF-16, failing on invalid
/// input.
#[verifier::external_body]
fn decode_utf16(units: &Vec<u16>) -> (r: Option<String>)
    ensures
        match r {
            Some(s) => utf16_text(units@) == Some(s@),
            None => utf16_text(units@) is None,
        },
{
    String::from_utf16(units).ok()
}

fn units_of(output: &Vec<u8>) -> (r: Vec<u16>)
    requires
        output@.len() % 2 == 0,
    ensures
        r@ == utf16le_units(output@),
{
    let mut r: Vec<u16> = Vec::new();
    let len = output.len();
    let n = len / 2;
    let mut k: usize = 0;
    while k < n
        invariant
            len == output@.len(),
            n == output@.len() / 2,
            k <= n,
            r@ =~= utf16le_units(output@).subrange(0, k as int),
        decreases n - k,
    {
        assert(2 * k + 1 < output@.len()) by (nonlinear_arith)
            requires
                k < n,
                n == output@.len() / 2,
        ;
        let i: usize = 2 * k;
        let lo = output[i] as u16;
        let hi = output[i + 1] as u16;
        let ghost prev = r@;
        let unit: u16 = lo + hi * 256;
        r.push(unit);
        assert(utf16le_units(output@).subrange(0, k as int + 1) =~= prev.push(unit));
        k = k + 1;
    }
    assert(utf16le_units(output@).subrange(0, n as int) =~= utf16le_units(output@));
    r
}

/// Whether the characters of `text` in `[from, to)` are exactly `target`.
fn segment_equals(text: &str, from: usize, to: usize, target: &str) -> (r: bool)
    requires
        from <= to <= text@.len(),
    ensures
        r == (text@.subrange(from as int, to as int) == target@),
{
    let n = target.unicode_len();
    if to - from != n {
        return false;
    }
    let mut k: usize = 0;
    while k < n
        invariant
            n == target@.len(),
            to - from == n,
            from <= to <= text@.len(),
            k <= n,
            forall|m: int| 0 <= m < k ==> text@[from + m] == target@[m],
        decreases n - k,
    {
        if text.get_char(from + k) != target.get_char(k) {
            assert(text@.subrange(from as int, to as int)[k as int] != target@[k as int]);
            return false;
        }
        k = k + 1;
    }
    assert(text@.subrange(from as int, to as int) =~= target@);
    true
}

/// Whether the line `[from, to)` of `text` is `target`, a carriage return
/// before the line's newline set aside when `ends_in_newline` holds.
fn line_equals(text: &str, from: usize, to: usize, ends_in_newline: bool, target: &str) -> (r: bool)
    requires
        from <= to <= text@.len(),
        ends_in_newline <==> to < text@.len(),
    ensures
        r == (line_text(text@, from as int, to as int) == target@),
{
    if ends_in_newline && from < to && text.get_char(to - 1) == '\r' {
        segment_equals(text, from, to - 1, target)
    } else {
        segment_equals(text, from, to, target)
    }
}

proof fn lemma_line_start_unique(s: Seq<char>, start: int, i: int, j: int)
    requires
        is_line(s, i, j),
        0 <= start <= j,
        start == 0 || s[start - 1] == '\n',
        forall|m: int| start <= m < j ==> s[m] != '\n',
    ensures
        i == start,
{
    if i < start {
        assert(s[start - 1] != '\n');
    } else if i > start {
        assert(s[i - 1] != '\n');
    }
}

/// Whether a line of `text` is exactly `target`, lines being split as
/// `str::lines` splits them.
pub fn text_has_line(text: &str, target: &str) -> (r: bool)
    ensures
        r == has_line(text@, target@),
{
    let n = text.unicode_len();
    let mut start: usize = 0;
    let mut k: usize = 0;
    while k < n
        invariant
            n == text@.len(),
            start <= k <= n,
            start == 0 || text@[start - 1] == '\n',
            forall|m: int| start <= m < k ==> text@[m] != '\n',
            forall|i: int, j: int| #[trigger]
                is_line(text@, i, j) && j < k ==> line_text(text@, i, j) != target@,
        decreases n - k,
    {
        if text.get_char(k) == '\n' {
            assert(is_line(text@, start as int, k as int));
            if line_equals(text, start, k, true, target) {
                return true;
            }
            assert forall|i: int, j: int| #[trigger]
                is_line(text@, i, j) && j < k + 1 implies line_text(text@, i, j) != target@ by {
                if j == k {
                    lemma_line_start_unique(text@, start as int, i, j);
                }
            }
            start = k + 1;
        } else {
            assert forall|i: int, j: int| #[trigger]
                is_line(text@, i, j) && j < k + 1 implies line_text(text@, i, j) != target@ by {
                if j == k {
                    assert(text@[j] == '\n' || j == n);
                }
            }
        }
        k = k + 1;
    }
    if start < n {
        assert(is_line(text@, start as int, n as int));
        if line_equals(text, start, n, false, target) {
            return true;
        }
    }
    assert forall|i: int, j: int| #[trigger] is_line(text@, i, j) implies line_text(text@, i, j)
        != target@ by {
        if j == n {
            lemma_line_start_unique(text@, start as int, i, j);
        }
    }
    false
}

/// Whether the listing printed by `wsl -l -q` names `distro`. The listing
/// is UTF-16 text, low byte first; a malformed listing names nothing.
pub fn wsl_list_contains(output: &Vec<u8>, distro: &str) -> (r: bool)
    ensures
        r == listing_names(output@, distro@),
{
    if output.len() % 2 != 0 {
        return false;
    }
    let units = units_of(output);
    match decode_utf16(&units) {
        Some(text) => text_has_line(text.as_str(), distro),
        None => false,
    }
}

} // verus!
