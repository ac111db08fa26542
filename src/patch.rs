use vstd::prelude::*;

verus! {

/// The bytes of the patch that the diff library writes to turn `before`
/// into `after`.
pub uninterp spec fn diff_of(before: Seq<u8>, after: Seq<u8>) -> Seq<u8>;

/// What the diff library makes of `base` when it parses `patch` and applies
/// it: `None` when the patch does not parse or does not fit `base`.
pub uninterp spec fn patched(base: Seq<u8>, patch: Seq<u8>) -> Option<Seq<u8>>;

/// The most digits a number in a hunk header may have. Such a line number,
/// plus the number of lines that follow the header, fits in a `usize`.
pub const MAX_HUNK_DIGITS: usize = 18;

/// Whether `p` holds a byte that begins a line.
pub open spec fn at_line_start(p: Seq<u8>, s: int) -> bool {
    s == 0 || (0 < s <= p.len() && p[s - 1] == 10)
}

/// Whether no line break lies in `p` from `s` up to `j`.
pub open spec fn same_line(p: Seq<u8>, s: int, j: int) -> bool {
    forall|k: int| s <= k < j ==> p[k] != 10
}

/// Whether the byte is an ASCII decimal digit.
pub open spec fn is_digit_byte(b: u8) -> bool {
    48 <= b && b <= 57
}

/// Whether `n` decimal digits stand in `p` from `j` on.
pub open spec fn digits_at(p: Seq<u8>, j: int, n: int) -> bool {
    0 <= j && j + n <= p.len() && forall|k: int| j <= k < j + n ==> is_digit_byte(#[trigger] p[k])
}

/// Whether every run of digits on a line that begins with `@`, the lines
/// that hold hunk headers, has at most `MAX_HUNK_DIGITS` digits.
pub open spec fn hunk_numbers_fit(p: Seq<u8>) -> bool {
    forall|s: int, j: int|
        #![trigger at_line_start(p, s), digits_at(p, j, MAX_HUNK_DIGITS + 1)]
        0 <= s <= j && s < p.len() && at_line_start(p, s) && p[s] == 64 && same_line(p, s, j)
            ==> !digits_at(p, j, MAX_HUNK_DIGITS + 1)
}

/// What applying the serialized patch `patch` to `base` gives: nothing for a
/// patch whose hunk headers hold numbers too long to be line numbers.
pub open spec fn apply_outcome(base: Seq<u8>, patch: Seq<u8>) -> Option<Seq<u8>> {
    if hunk_numbers_fit(patch) {
        patched(base, patch)
    } else {
        None
    }
}

/// Checks that the hunk headers of a serialized patch hold no number too
/// long to be a line number.
pub fn check_hunk_numbers(p: &[u8]) -> (r: bool)
    ensures
        r == hunk_numbers_fit(p@),
{
    let mut line_begin: usize = 0;
    let mut run: usize = 0;
    let mut i: usize = 0;
    while i < p.len()
        invariant
            i <= p@.len(),
            line_begin <= i,
            at_line_start(p@, line_begin as int),
            same_line(p@, line_begin as int, i as int),
            run <= i - line_begin,
            run <= MAX_HUNK_DIGITS || p@[line_begin as int] != 64,
            digits_at(p@, i - run, run as int),
            run < i - line_begin ==> !is_digit_byte(p@[i - run - 1]),
            forall|s: int, j: int|
                #![trigger at_line_start(p@, s), digits_at(p@, j, MAX_HUNK_DIGITS + 1)]
                0 <= s <= j && j + MAX_HUNK_DIGITS + 1 <= i && at_line_start(p@, s) && p@[s] == 64
                    && same_line(p@, s, j) ==> !digits_at(p@, j, MAX_HUNK_DIGITS + 1),
        decreases p@.len() - i,
    {
        let b = p[i];
        if b == 10 {
            line_begin = i + 1;
            run = 0;
        } else if 48 <= b && b <= 57 {
            run = run + 1;
            assert(digits_at(p@, i + 1 - run, run as int));
            if run > MAX_HUNK_DIGITS && p[line_begin] == 64 {
                let ghost j = i + 1 - (MAX_HUNK_DIGITS + 1);
                assert(digits_at(p@, j, MAX_HUNK_DIGITS + 1));
                assert(same_line(p@, line_begin as int, j));
                return false;
            }
        } else {
            run = 0;
        }
        i = i + 1;
        proof {
            assert forall|s: int, j: int|
                #![trigger at_line_start(p@, s), digits_at(p@, j, MAX_HUNK_DIGITS + 1)]
                0 <= s <= j && j + MAX_HUNK_DIGITS + 1 <= i && at_line_start(p@, s) && p@[s] == 64
                    && same_line(p@, s, j) implies !digits_at(p@, j, MAX_HUNK_DIGITS + 1) by {
                if j + MAX_HUNK_DIGITS + 1 == i && digits_at(p@, j, MAX_HUNK_DIGITS + 1) {
                    let last = i - 1;
                    assert(is_digit_byte(p@[last]));
                    if s < line_begin {
                        assert(p@[line_begin - 1] == 10);
                        if line_begin - 1 >= j {
                            assert(is_digit_byte(p@[line_begin - 1]));
                        }
                    } else if s > line_begin {
                        assert(p@[s - 1] == 10);
                    }
                    assert(s == line_begin);
                    if run < MAX_HUNK_DIGITS + 1 {
                        assert(run < i - line_begin);
                        assert(is_digit_byte(p@[i - run - 1]));
                    }
                }
            }
        }
    }
    true
}

/// Relies on `diffy::create_patch_bytes` and `diffy::Patch::to_bytes`: the
/// serialized line patch from `before` to `after`, a function of the two
/// buffers alone; applied to `before` it gives back `after`, as the library
/// documents and its tests check.
#[verifier::external_body]
pub(crate) fn make_patch(before: &[u8], after: &[u8]) -> (r: Vec<u8>)
    ensures
        r@ == diff_of(before@, after@),
        patched(before@, r@) == Some(after@),
{
    diffy::create_patch_bytes(before, after).to_bytes()
}

/// Relies on `diffy::Patch::from_bytes` and `diffy::apply_bytes`: parses the
/// serialized patch and applies it to `base`; either step may fail, and the
/// outcome is a function of the two buffers alone. Hunk header numbers are
/// kept short enough that the library's line arithmetic cannot overflow.
#[verifier::external_body]
pub(crate) fn apply_patch(base: &[u8], patch: &[u8]) -> (r: Option<Vec<u8>>)
    requires
        hunk_numbers_fit(patch@),
    ensures
        match patched(base@, patch@) {
            Some(c) => r is Some && r->Some_0@ == c,
            None => r is None,
        },
{
    match diffy::Patch::from_bytes(patch) {
        Ok(p) => diffy::apply_bytes(base, &p).ok(),
        Err(_) => None,
    }
}

} // verus!
