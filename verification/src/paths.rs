//! Paths as plain strings with `/` as the separator.

use vstd::prelude::*;
use vstd::string::*;

verus! {

/// A path is rooted when it starts at `/`.
pub open spec fn is_rooted(p: Seq<char>) -> bool {
    p.len() > 0 && p[0] == '/'
}

/// `name` placed under `base`: a rooted `name` stands alone, otherwise the
/// two are put together with exactly one separator between them where `base`
/// does not already end in one.
pub open spec fn joined(base: Seq<char>, name: Seq<char>) -> Seq<char> {
    if is_rooted(name) {
        name
    } else if base.len() == 0 || base.last() == '/' {
        base + name
    } else {
        base + seq!['/'] + name
    }
}

/// Whether `p` starts at the root.
pub fn is_absolute_path(p: &str) -> (r: bool)
    ensures
        r == is_rooted(p@),
{
    p.unicode_len() > 0 && p.get_char(0) == '/'
}

/// Puts `name` under `base`.
pub fn join_path(base: &str, name: &str) -> (r: String)
    ensures
        r@ == joined(base@, name@),
{
    if is_absolute_path(name) {
        return String::from_str(name);
    }
    let base_len: usize = base.unicode_len();
    let mut out = String::from_str(base);
    if base_len > 0 && base.get_char(base_len - 1) != '/' {
        proof {
            reveal_strlit("/");
        }
        out.append("/");
        assert(out@ =~= base@ + seq!['/']);
    }
    out.append(name);
    out
}

/// A relative name joined onto a base lies under the base: the result
/// begins with the base and ends with the name.
pub proof fn lemma_joined_lies_under_base(base: Seq<char>, name: Seq<char>)
    requires
        !is_rooted(name),
    ensures
        joined(base, name).len() >= base.len() + name.len(),
        joined(base, name).subrange(0, base.len() as int) == base,
        joined(base, name).subrange(joined(base, name).len() - name.len(), joined(base, name).len() as int) == name,
{
    let j = joined(base, name);
    assert(j.subrange(0, base.len() as int) =~= base);
    assert(j.subrange(j.len() - name.len(), j.len() as int) =~= name);
}

/// Two relative names under one base collide only if they are the same name.
pub proof fn lemma_joined_is_injective(base: Seq<char>, a: Seq<char>, b: Seq<char>)
    requires
        !is_rooted(a),
        !is_rooted(b),
        joined(base, a) == joined(base, b),
    ensures
        a == b,
{
    let front = if base.len() == 0 || base.last() == '/' {
        base
    } else {
        base + seq!['/']
    };
    assert(joined(base, a) =~= front + a);
    assert(joined(base, b) =~= front + b);
    assert(a =~= (front + a).subrange(front.len() as int, (front + a).len() as int));
    assert(b =~= (front + b).subrange(front.len() as int, (front + b).len() as int));
}

} // verus!
