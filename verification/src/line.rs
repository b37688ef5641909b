//! Parsing of a user-supplied line specifier and rendering of the
//! provider-specific line anchor.
//!
//! A specifier must fully match one of two textual shapes: a single
//! run of decimal digits, or two runs of digits separated by a single
//! hyphen.  Parsing yields a structured selector; how a selector is
//! rendered as a URL fragment belongs to the provider variant, so a
//! new provider can bring its own anchor syntax without touching the
//! parsing logic here.

use vstd::prelude::*;
use crate::domain::Domain;
use crate::text::{all_digits, is_digit, is_digit_char};

verus! {

/// A structured line selector: one line, or an inclusive range kept
/// exactly as the two digit runs that were written (no ordering
/// between the two ends is enforced).
#[derive(Debug)]
pub enum LineSelector {
    Single(String),
    Range(String, String),
}

impl LineSelector {
    /// Each digit run of the selector is non-empty and all digits.
    pub open spec fn wf(self) -> bool {
        match self {
            LineSelector::Single(n) => is_single_form(n@),
            LineSelector::Range(a, b) => is_single_form(a@) && is_single_form(b@),
        }
    }
}

/// Failure to parse a line specifier.
#[derive(Clone, Copy, Debug, PartialEq, Eq, Structural)]
pub enum FormatError {
    /// The specifier matches neither textual shape.
    InvalidLineFormat,
}

impl FormatError {
    /// The user-facing description of this failure.
    pub fn message(&self) -> (r: String)
        ensures
            r@ == "line number's format is invalid"@,
    {
        String::from_str("line number's format is invalid")
    }
}

/// The single-line shape: a non-empty run of decimal digits.
pub open spec fn is_single_form(s: Seq<char>) -> bool {
    s.len() > 0 && all_digits(s)
}

/// Position `k` splits `s` into the range shape: a non-empty digit
/// run, a hyphen at `k`, and a non-empty digit run.
pub open spec fn range_split_at(s: Seq<char>, k: int) -> bool {
    1 <= k && k + 1 < s.len() && s[k] == '-' && all_digits(s.take(k)) && all_digits(
        s.skip(k + 1),
    )
}

/// The range shape: two non-empty digit runs separated by one hyphen.
pub open spec fn is_range_form(s: Seq<char>) -> bool {
    exists|k: int| range_split_at(s, k)
}

/// The hyphen position of a specifier in range shape.
pub open spec fn range_split_of(s: Seq<char>) -> int {
    choose|k: int| range_split_at(s, k)
}

/// A specifier in range shape splits at exactly one position: a digit
/// run cannot contain the hyphen, so a second split point would sit
/// inside one of the two runs.
pub proof fn lemma_range_split_unique(s: Seq<char>, k1: int, k2: int)
    requires
        range_split_at(s, k1),
        range_split_at(s, k2),
    ensures
        k1 == k2,
{
    if k1 < k2 {
        assert(s.skip(k1 + 1)[k2 - k1 - 1] == '-');
        assert(is_digit(s.skip(k1 + 1)[k2 - k1 - 1]));
    }
    if k2 < k1 {
        assert(s.skip(k2 + 1)[k1 - k2 - 1] == '-');
        assert(is_digit(s.skip(k2 + 1)[k1 - k2 - 1]));
    }
}

/// The two shapes exclude each other: a specifier of digits only has
/// no hyphen to split at.
pub proof fn lemma_forms_exclusive(s: Seq<char>)
    ensures
        !(is_single_form(s) && is_range_form(s)),
{
    if is_single_form(s) && is_range_form(s) {
        let k = choose|k: int| range_split_at(s, k);
        assert(is_digit(s[k]));
    }
}

/// Parse a line specifier into a structured selector.  The whole
/// specifier must be one of the two shapes; anything else is rejected.
pub fn parse_line_selector(s: &str) -> (r: Result<LineSelector, FormatError>)
    ensures
        is_single_form(s@) ==> (r matches Ok(sel) && sel matches LineSelector::Single(n)
            && n@ == s@),
        is_range_form(s@) ==> (r matches Ok(sel) && sel matches LineSelector::Range(a, b)
            && a@ == s@.take(range_split_of(s@)) && b@ == s@.skip(range_split_of(s@) + 1)),
        !is_single_form(s@) && !is_range_form(s@) ==> r == Err::<LineSelector, FormatError>(
            FormatError::InvalidLineFormat,
        ),
        r matches Ok(sel) ==> sel.wf(),
{
    let len = s.unicode_len();
    let mut i: usize = 0;
    // scan the leading digit run
    while i < len && is_digit_char(s.get_char(i))
        invariant
            0 <= i <= len,
            len == s@.len(),
            all_digits(s@.take(i as int)),
        decreases len - i,
    {
        assert forall|j: int| 0 <= j < i + 1 implies is_digit(#[trigger] s@.take(i + 1)[j]) by {
            if j < i {
                assert(s@.take(i + 1)[j] == s@.take(i as int)[j]);
            }
        }
        i += 1;
    }
    if i == len {
        // all digits to the end: the single shape, unless empty
        proof {
            assert(s@.take(len as int) =~= s@);
            if is_range_form(s@) {
                let k = choose|k: int| range_split_at(s@, k);
                assert(is_digit(s@[k]));
            }
        }
        if len == 0 {
            return Err(FormatError::InvalidLineFormat);
        }
        let digits = String::from_str(s);
        return Ok(LineSelector::Single(digits));
    }
    let c = s.get_char(i);
    assert(!is_digit(s@[i as int]));
    if c != '-' || i == 0 {
        // a stray character, or a hyphen with no digits before it:
        // neither shape can hold, whatever follows
        proof {
            if is_range_form(s@) {
                let k = choose|k: int| range_split_at(s@, k);
                if k < i {
                    assert(is_digit(s@.take(i as int)[k]));
                } else if k > i {
                    assert(is_digit(s@.take(k)[i as int]));
                }
            }
        }
        return Err(FormatError::InvalidLineFormat);
    }
    // a hyphen after a non-empty digit run: scan the trailing run
    let split = i;
    let mut j: usize = split + 1;
    while j < len && is_digit_char(s.get_char(j))
        invariant
            split + 1 <= j <= len,
            len == s@.len(),
            split < len,
            all_digits(s@.subrange(split + 1, j as int)),
        decreases len - j,
    {
        assert forall|q: int| 0 <= q < j + 1 - (split + 1) implies is_digit(
            #[trigger] s@.subrange(split + 1, j + 1)[q],
        ) by {
            if q < j - (split + 1) {
                assert(s@.subrange(split + 1, j + 1)[q] == s@.subrange(split + 1, j as int)[q]);
            }
        }
        j += 1;
    }
    if j < len || j == split + 1 {
        // a non-digit inside the trailing run, or an empty trailing
        // run: no position can split the specifier into two digit runs
        assert(!is_digit(s@[j as int]) || j == split + 1);
        proof {
            if is_range_form(s@) {
                let k = choose|k: int| range_split_at(s@, k);
                if k < split {
                    assert(is_digit(s@.take(split as int)[k]));
                } else if k > split {
                    assert(is_digit(s@.take(k)[split as int]));
                }
                assert(k == split);
                if j < len {
                    assert(is_digit(s@.skip(split + 1)[j - (split + 1)]));
                } else {
                    assert(s@.skip(split + 1).len() == 0);
                }
            }
            if is_single_form(s@) {
                assert(is_digit(s@[split as int]));
            }
        }
        return Err(FormatError::InvalidLineFormat);
    }
    // the specifier splits at the hyphen and nowhere else
    proof {
        assert(s@.subrange(split + 1, len as int) =~= s@.skip(split + 1));
        assert(range_split_at(s@, split as int));
        lemma_range_split_unique(s@, split as int, range_split_of(s@));
        if is_single_form(s@) {
            assert(is_digit(s@[split as int]));
        }
    }
    let head = s.substring_char(0, split);
    let tail = s.substring_char(split + 1, len);
    proof {
        assert(head@ =~= s@.take(split as int));
        assert(tail@ =~= s@.skip(split + 1));
    }
    Ok(LineSelector::Range(String::from_str(head), String::from_str(tail)))
}

impl Domain {
    /// The anchor fragment this provider renders for one line.
    pub open spec fn spec_single_anchor(self, n: Seq<char>) -> Seq<char> {
        match self {
            Domain::Github => "#L"@ + n,
        }
    }

    /// The anchor fragment this provider renders for a line range.
    pub open spec fn spec_range_anchor(self, a: Seq<char>, b: Seq<char>) -> Seq<char> {
        match self {
            Domain::Github => "#L"@ + a + "-L"@ + b,
        }
    }

    /// Render a structured selector as this provider's URL fragment.
    pub fn render_anchor(&self, sel: &LineSelector) -> (r: String)
        ensures
            sel matches LineSelector::Single(n) ==> r@ == self.spec_single_anchor(n@),
            sel matches LineSelector::Range(a, b) ==> r@ == self.spec_range_anchor(a@, b@),
    {
        match self {
            Domain::Github => {
                match sel {
                    LineSelector::Single(n) => {
                        let mut out = String::from_str("#L");
                        out.append(n.as_str());
                        out
                    },
                    LineSelector::Range(a, b) => {
                        let mut out = String::from_str("#L");
                        out.append(a.as_str());
                        out.append("-L");
                        out.append(b.as_str());
                        out
                    },
                }
            },
        }
    }
}

/// What parsing and rendering together return for a raw specifier.
pub open spec fn spec_line_anchor(d: Domain, s: Seq<char>) -> Result<Seq<char>, FormatError> {
    if is_single_form(s) {
        Ok(d.spec_single_anchor(s))
    } else if is_range_form(s) {
        let k = range_split_of(s);
        Ok(d.spec_range_anchor(s.take(k), s.skip(k + 1)))
    } else {
        Err(FormatError::InvalidLineFormat)
    }
}

/// Parse a raw line specifier and render it as the provider-specific
/// anchor fragment.
pub fn line_number_to_string(domain: &Domain, line_option_str: &str) -> (r: Result<
    String,
    FormatError,
>)
    ensures
        (match spec_line_anchor(*domain, line_option_str@) {
            Ok(a) => r matches Ok(out) && out@ == a,
            Err(e) => r matches Err(e2) && e2 == e,
        }),
{
    proof {
        lemma_forms_exclusive(line_option_str@);
    }
    match parse_line_selector(line_option_str) {
        Ok(sel) => Ok(domain.render_anchor(&sel)),
        Err(e) => Err(e),
    }
}

} // verus!
