use vstd::prelude::*;

verus! {

/// The characters of `s` with every `-` left out, in order.
pub open spec fn strip_dashes(s: Seq<char>) -> Seq<char>
    decreases s.len(),
{
    if s.len() == 0 {
        s
    } else if s.last() == '-' {
        strip_dashes(s.drop_last())
    } else {
        strip_dashes(s.drop_last()).push(s.last())
    }
}

/// Removes every dash from `string`.
pub fn without_dash(string: &String) -> (r: String)
    ensures
        r@ == strip_dashes(string@),
{
    let s = string.as_str();
    let n = s.unicode_len();
    let mut out = String::new();
    let mut i: usize = 0;
    while i < n
        invariant
            i <= n,
            n == s@.len(),
            s@ == string@,
            out@ == strip_dashes(s@.subrange(0, i as int)),
        decreases n - i,
    {
        let c = s.get_char(i);
        let piece = s.substring_char(i, i + 1);
        assert(s@.subrange(0, i + 1).drop_last() =~= s@.subrange(0, i as int));
        if c != '-' {
            out.append(piece);
        }
        i = i + 1;
    }
    assert(s@.subrange(0, n as int) =~= s@);
    out
}

/// Stripping dashes leaves no dash behind.
pub proof fn lemma_strip_dashes_has_no_dash(s: Seq<char>)
    ensures
        !strip_dashes(s).contains('-'),
    decreases s.len(),
{
    if s.len() > 0 {
        lemma_strip_dashes_has_no_dash(s.drop_last());
        let r = strip_dashes(s.drop_last());
        if s.last() != '-' {
            assert forall|k: int| 0 <= k < r.push(s.last()).len() implies r.push(s.last())[k]
                != '-' by {
                if k < r.len() {
                    assert(r.push(s.last())[k] == r[k]);
                }
            }
        }
    }
}

/// A string that holds no dash comes out of dash stripping unchanged.
pub proof fn lemma_strip_dashes_without_dash(s: Seq<char>)
    requires
        !s.contains('-'),
    ensures
        strip_dashes(s) == s,
    decreases s.len(),
{
    if s.len() > 0 {
        assert(!s.drop_last().contains('-')) by {
            if s.drop_last().contains('-') {
                let k = choose|k: int| 0 <= k < s.drop_last().len() && s.drop_last()[k] == '-';
                assert(s[k] == '-');
            }
        }
        lemma_strip_dashes_without_dash(s.drop_last());
        assert(s.last() != '-') by {
            assert(s[s.len() - 1] == s.last());
        }
        assert(s.drop_last().push(s.last()) =~= s);
    }
}

/// Dash stripping is idempotent: stripping a second time changes nothing.
pub proof fn lemma_strip_dashes_idempotent(s: Seq<char>)
    ensures
        strip_dashes(strip_dashes(s)) == strip_dashes(s),
{
    lemma_strip_dashes_has_no_dash(s);
    lemma_strip_dashes_without_dash(strip_dashes(s));
}

/// The index of the first `.` in `s` at or after `from`, or the length of `s` if there is none.
pub open spec fn dot_position(s: Seq<char>, from: int) -> int
    decreases s.len() - from,
{
    if from >= s.len() {
        s.len() as int
    } else if s[from] == '.' {
        from
    } else {
        dot_position(s, from + 1)
    }
}

/// What stands before the first `.` of `s`: the whole of `s` where it holds none.
pub open spec fn stem(s: Seq<char>) -> Seq<char> {
    s.subrange(0, dot_position(s, 0))
}

/// The part of `name` before its first `.` (the whole name where it has none).
pub fn before_first_dot(name: &String) -> (r: String)
    ensures
        r@ == stem(name@),
{
    let s = name.as_str();
    let n = s.unicode_len();
    let mut i: usize = 0;
    while i < n && s.get_char(i) != '.'
        invariant
            i <= n,
            n == s@.len(),
            s@ == name@,
            dot_position(s@, 0) == dot_position(s@, i as int),
        decreases n - i,
    {
        i = i + 1;
    }
    String::from_str(s.substring_char(0, i))
}

/// The text that `str::to_lowercase` makes of `s`.
pub uninterp spec fn lower_of(s: Seq<char>) -> Seq<char>;

/// Relies on `str::to_lowercase`: its result depends on the characters of the input alone,
/// and the empty string stays empty.
#[verifier::external_body]
pub(crate) fn lowercase(s: &String) -> (r: String)
    ensures
        r@ == lower_of(s@),
        s@.len() == 0 ==> r@.len() == 0,
{
    s.to_lowercase()
}

} // verus!
