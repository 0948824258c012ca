//! Users, as the list endpoint reports them.

use vstd::prelude::*;

verus! {

/// A user: the identifier, the administrator flag of the authenticated
/// account, and the username.
#[derive(Debug)]
pub struct User {
    /// User id
    pub id: usize,
    /// Whether the account is an administrator; the platform omits the
    /// field for non-admin queries, which reads as `false`
    pub is_admin: bool,
    /// User name (without spaces)
    pub username: String,
}

impl Clone for User {
    /// An exact copy: every field, including the username, reads the same.
    fn clone(&self) -> (r: Self)
        ensures
            r == *self,
    {
        User { id: self.id, is_admin: self.is_admin, username: self.username.clone() }
    }
}

/// Whether a character is a decimal digit.
pub open spec fn spec_is_digit(c: char) -> bool {
    48 <= c as int <= 57
}

/// Whether a character is a lower-case hexadecimal digit.
pub open spec fn spec_is_hex_lower(c: char) -> bool {
    spec_is_digit(c) || 97 <= c as int <= 102
}

/// A machine-account decomposition of `s` at position `i`: the word `p`
/// (`project_` or `group_`), then `d` decimal digits, then `_bot_`, then
/// `h` lower-case hexadecimal characters with `h` at least 32.
pub open spec fn spec_bot_shape(s: Seq<char>, i: int, p: Seq<char>, d: int, h: int) -> bool {
    &&& 0 <= i
    &&& 1 <= d
    &&& 32 <= h
    &&& i + p.len() + d + 5 + h <= s.len()
    &&& s.subrange(i, i + p.len()) == p
    &&& (forall|j: int| i + p.len() <= j < i + p.len() + d ==> spec_is_digit(#[trigger] s[j]))
    &&& s.subrange(i + p.len() + d, i + p.len() + d + 5) == "_bot_"@
    &&& (forall|j: int|
        i + p.len() + d + 5 <= j < i + p.len() + d + 5 + h ==> spec_is_hex_lower(#[trigger] s[j]))
}

/// Whether a username names a machine account: it contains, anywhere, a
/// `project_<id>_bot_<hex>` or `group_<id>_bot_<hex>` run with at least 32
/// hexadecimal characters.
pub open spec fn spec_is_bot_username(s: Seq<char>) -> bool {
    exists|i: int, d: int, h: int|
        spec_bot_shape(s, i, "project_"@, d, h) || spec_bot_shape(s, i, "group_"@, d, h)
}

fn is_digit_char(c: char) -> (r: bool)
    ensures
        r == spec_is_digit(c),
{
    let v = c as u32;
    48 <= v && v <= 57
}

fn is_hex_char(c: char) -> (r: bool)
    ensures
        r == spec_is_hex_lower(c),
{
    let v = c as u32;
    (48 <= v && v <= 57) || (97 <= v && v <= 102)
}

/// Whether `lit` occurs in `s` at position `i`.
fn matches_at(s: &str, n: usize, i: usize, lit: &str) -> (r: bool)
    requires
        n == s@.len(),
        i <= n,
    ensures
        r == (i + lit@.len() <= s@.len() && s@.subrange(i as int, i + lit@.len()) == lit@),
{
    let m = lit.unicode_len();
    if m > n - i {
        return false;
    }
    let mut j: usize = 0;
    while j < m
        invariant
            j <= m,
            m == lit@.len(),
            n == s@.len(),
            i + m <= n,
            forall|k: int| 0 <= k < j ==> s@[i + k] == lit@[k],
        decreases m - j,
    {
        if s.get_char(i + j) != lit.get_char(j) {
            proof {
                assert(s@.subrange(i as int, i + lit@.len())[j as int] == s@[i + j]);
            }
            return false;
        }
        j += 1;
    }
    proof {
        assert(s@.subrange(i as int, i + lit@.len()) =~= lit@);
    }
    true
}

/// The length of the run of decimal digits in `s` starting at `i`.
fn digit_run(s: &str, n: usize, i: usize) -> (d: usize)
    requires
        n == s@.len(),
        i <= n,
    ensures
        i + d <= n,
        forall|k: int| i <= k < i + d ==> spec_is_digit(#[trigger] s@[k]),
        i + d == n || !spec_is_digit(s@[i + d]),
{
    let mut j: usize = i;
    loop
        invariant
            i <= j <= n,
            n == s@.len(),
            forall|k: int| i <= k < j ==> spec_is_digit(#[trigger] s@[k]),
        ensures
            i <= j <= n,
            forall|k: int| i <= k < j ==> spec_is_digit(#[trigger] s@[k]),
            j == n || !spec_is_digit(s@[j as int]),
        decreases n - j,
    {
        if j == n {
            break ;
        }
        if !is_digit_char(s.get_char(j)) {
            break ;
        }
        j += 1;
    }
    j - i
}

/// Whether at least `need` lower-case hexadecimal characters stand at
/// position `i` of `s`.
fn hex_run_at_least(s: &str, n: usize, i: usize, need: usize) -> (r: bool)
    requires
        n == s@.len(),
        i <= n,
    ensures
        r == (i + need <= s@.len() && (forall|k: int|
            i <= k < i + need ==> spec_is_hex_lower(#[trigger] s@[k]))),
{
    if need > n - i {
        return false;
    }
    let mut j: usize = 0;
    while j < need
        invariant
            j <= need,
            n == s@.len(),
            i + need <= n,
            forall|k: int| i <= k < i + j ==> spec_is_hex_lower(#[trigger] s@[k]),
        decreases need - j,
    {
        if !is_hex_char(s.get_char(i + j)) {
            return false;
        }
        j += 1;
    }
    true
}

/// Any decomposition at `i` must use exactly the maximal digit run: the
/// digits are followed by `_bot_`, whose first character is no digit, so a
/// shorter run would put a digit where `_` stands and a longer one would
/// need a digit where the run already stopped.
proof fn lemma_shape_fixes_digit_run(
    s: Seq<char>,
    i: int,
    p: Seq<char>,
    d: int,
    h: int,
    dlen: int,
)
    requires
        spec_bot_shape(s, i, p, d, h),
        0 <= dlen,
        i + p.len() + dlen <= s.len(),
        forall|k: int| i + p.len() <= k < i + p.len() + dlen ==> spec_is_digit(#[trigger] s[k]),
        i + p.len() + dlen == s.len() || !spec_is_digit(s[i + p.len() + dlen]),
    ensures
        d == dlen,
{
    reveal_strlit("_bot_");
    let a = i + p.len();
    if d < dlen {
        assert(s.subrange(a + d, a + d + 5)[0] == s[a + d]);
        assert("_bot_"@[0] == '_');
        assert(spec_is_digit(s[a + d]));
        assert(false);
    } else if d > dlen {
        assert(spec_is_digit(s[a + dlen]));
        assert(a + dlen < s.len());
        assert(false);
    }
}

/// Whether a machine-account decomposition with the given word stands at
/// position `i`.
fn bot_shape_at(s: &str, n: usize, i: usize, word: &str) -> (r: bool)
    requires
        n == s@.len(),
        i <= n,
    ensures
        r == exists|d: int, h: int| spec_bot_shape(s@, i as int, word@, d, h),
{
    proof {
        reveal_strlit("_bot_");
    }
    if !matches_at(s, n, i, word) {
        proof {
            assert forall|d: int, h: int| !spec_bot_shape(s@, i as int, word@, d, h) by {
                if spec_bot_shape(s@, i as int, word@, d, h) {
                    assert(i + word@.len() <= s@.len());
                    assert(false);
                }
            }
        }
        return false;
    }
    let a = i + word.unicode_len();
    let dlen = digit_run(s, n, a);
    if dlen == 0 {
        proof {
            assert forall|d: int, h: int| !spec_bot_shape(s@, i as int, word@, d, h) by {
                if spec_bot_shape(s@, i as int, word@, d, h) {
                    assert(spec_is_digit(s@[i + word@.len()]));
                    assert(false);
                }
            }
        }
        return false;
    }
    let b = a + dlen;
    if !matches_at(s, n, b, "_bot_") {
        proof {
            assert forall|d: int, h: int| !spec_bot_shape(s@, i as int, word@, d, h) by {
                if spec_bot_shape(s@, i as int, word@, d, h) {
                    lemma_shape_fixes_digit_run(
                        s@,
                        i as int,
                        word@,
                        d,
                        h,
                        dlen as int,
                    );
                    assert(s@.subrange(b as int, b + 5) == "_bot_"@);
                    assert(b + 5 <= n);
                    assert(false);
                }
            }
        }
        return false;
    }
    let c = b + 5;
    if hex_run_at_least(s, n, c, 32) {
        proof {
            assert(spec_bot_shape(s@, i as int, word@, dlen as int, 32));
        }
        true
    } else {
        proof {
            assert forall|d: int, h: int| !spec_bot_shape(s@, i as int, word@, d, h) by {
                if spec_bot_shape(s@, i as int, word@, d, h) {
                    lemma_shape_fixes_digit_run(
                        s@,
                        i as int,
                        word@,
                        d,
                        h,
                        dlen as int,
                    );
                    assert(forall|k: int|
                        c <= k < c + 32 ==> spec_is_hex_lower(#[trigger] s@[k]));
                    assert(c + 32 <= n);
                    assert(false);
                }
            }
        }
        false
    }
}

/// Whether a username names a machine account of the platform, of the form
/// `project_<id>_bot_<hex>` or `group_<id>_bot_<hex>` (with at least 32
/// hexadecimal characters), anywhere in the string.
#[verifier::loop_isolation(false)]
pub fn is_bot_username(s: &str) -> (r: bool)
    ensures
        r == spec_is_bot_username(s@),
{
    let n = s.unicode_len();
    let mut i: usize = 0;
    while i < n
        invariant
            i <= n,
            forall|i2: int, d: int, h: int|
                0 <= i2 < i ==> !spec_bot_shape(s@, i2, "project_"@, d, h) && !spec_bot_shape(
                    s@,
                    i2,
                    "group_"@,
                    d,
                    h,
                ),
        decreases n - i,
    {
        if bot_shape_at(s, n, i, "project_") {
            proof {
                let (d, h) = choose|d: int, h: int| spec_bot_shape(s@, i as int, "project_"@, d, h);
                assert(spec_bot_shape(s@, i as int, "project_"@, d, h));
            }
            return true;
        }
        if bot_shape_at(s, n, i, "group_") {
            proof {
                let (d, h) = choose|d: int, h: int| spec_bot_shape(s@, i as int, "group_"@, d, h);
                assert(spec_bot_shape(s@, i as int, "group_"@, d, h));
            }
            return true;
        }
        i += 1;
    }
    proof {
        if spec_is_bot_username(s@) {
            let (i2, d, h) = choose|i2: int, d: int, h: int|
                spec_bot_shape(s@, i2, "project_"@, d, h) || spec_bot_shape(
                    s@,
                    i2,
                    "group_"@,
                    d,
                    h,
                );
            assert(0 <= i2 < n);
            assert(false);
        }
    }
    false
}

} // verus!
