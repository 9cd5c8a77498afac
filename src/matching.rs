//! Which paid products take part in a call: those enabled on chain for the
//! organization and enabled for the project, compared exactly or, failing
//! that, after lowercasing.

use vstd::prelude::*;
use crate::address::{ChainAddress, address_text, format_address};

verus! {

/// The characters of each string, in order.
pub open spec fn texts(v: Seq<String>) -> Seq<Seq<char>> {
    v.map_values(|s: String| s@)
}

/// What `str::to_lowercase` makes of a text.
pub uninterp spec fn lower_of(s: Seq<char>) -> Seq<char>;

/// Relies on `str::to_lowercase`: the result depends on the characters alone.
#[verifier::external_body]
fn lowercase(s: &str) -> (r: String)
    ensures
        r@ == lower_of(s@),
{
    s.to_lowercase()
}

/// The elements of `s` that `listed` holds, in the order of `s`.
pub open spec fn keep_listed(s: Seq<Seq<char>>, listed: Seq<Seq<char>>) -> Seq<Seq<char>>
    decreases s.len(),
{
    if s.len() == 0 {
        Seq::empty()
    } else {
        let init = keep_listed(s.drop_last(), listed);
        if listed.contains(s.last()) {
            init.push(s.last())
        } else {
            init
        }
    }
}

/// The products to process: the exact intersection, unless it is empty and
/// the lowercase intersection is not, in which case the lowercase one.
pub open spec fn enabled_selection(
    chain: Seq<Seq<char>>,
    chain_lower: Seq<Seq<char>>,
    project: Seq<Seq<char>>,
    project_lower: Seq<Seq<char>>,
) -> Seq<Seq<char>> {
    let exact = keep_listed(chain, project);
    let folded = keep_listed(chain_lower, project_lower);
    if exact.len() == 0 && folded.len() > 0 {
        folded
    } else {
        exact
    }
}

/// The canonical text of each on-chain address.
pub open spec fn address_texts(chain: Seq<ChainAddress>) -> Seq<Seq<char>> {
    chain.map_values(|a: ChainAddress| address_text(a@))
}

/// The lowercase form of each text.
pub open spec fn lowered(s: Seq<Seq<char>>) -> Seq<Seq<char>> {
    s.map_values(|t: Seq<char>| lower_of(t))
}

/// The products of a call, from the on-chain list and the project's list.
pub open spec fn enabled_products(chain: Seq<ChainAddress>, project: Seq<Seq<char>>) -> Seq<
    Seq<char>,
> {
    enabled_selection(
        address_texts(chain),
        lowered(address_texts(chain)),
        project,
        lowered(project),
    )
}

fn contains_text(listed: &Vec<String>, s: &String) -> (r: bool)
    ensures
        r == texts(listed@).contains(s@),
{
    let mut i: usize = 0;
    while i < listed.len()
        invariant
            i <= listed.len(),
            forall|j: int| 0 <= j < i ==> listed@[j]@ != s@,
        decreases listed.len() - i,
    {
        if listed[i] == *s {
            assert(texts(listed@)[i as int] == s@);
            return true;
        }
        i = i + 1;
    }
    assert forall|j: int| 0 <= j < texts(listed@).len() implies texts(listed@)[j] != s@ by {
        assert(texts(listed@)[j] == listed@[j]@);
    }
    false
}

fn keep_listed_exec(s: &Vec<String>, listed: &Vec<String>) -> (r: Vec<String>)
    ensures
        texts(r@) == keep_listed(texts(s@), texts(listed@)),
{
    let mut out: Vec<String> = Vec::new();
    let mut i: usize = 0;
    while i < s.len()
        invariant
            i <= s.len(),
            texts(out@) == keep_listed(texts(s@).subrange(0, i as int), texts(listed@)),
        decreases s.len() - i,
    {
        let ghost prefix = texts(s@).subrange(0, i as int + 1);
        assert(prefix.drop_last() =~= texts(s@).subrange(0, i as int));
        assert(prefix.last() == s@[i as int]@);
        if contains_text(listed, &s[i]) {
            out.push(s[i].clone());
            assert(texts(out@) =~= keep_listed(prefix, texts(listed@)));
        }
        i = i + 1;
    }
    assert(texts(s@).subrange(0, s.len() as int) =~= texts(s@));
    out
}

/// Chooses the products of a call from the two lists and their lowercase forms.
pub fn select_enabled(
    chain: &Vec<String>,
    chain_lower: &Vec<String>,
    project: &Vec<String>,
    project_lower: &Vec<String>,
) -> (r: Vec<String>)
    ensures
        texts(r@) == enabled_selection(
            texts(chain@),
            texts(chain_lower@),
            texts(project@),
            texts(project_lower@),
        ),
{
    let exact = keep_listed_exec(chain, project);
    let folded = keep_listed_exec(chain_lower, project_lower);
    if exact.len() == 0 && folded.len() > 0 {
        folded
    } else {
        exact
    }
}

fn lower_all(v: &Vec<String>) -> (r: Vec<String>)
    ensures
        texts(r@) == lowered(texts(v@)),
{
    let mut out: Vec<String> = Vec::new();
    let mut i: usize = 0;
    while i < v.len()
        invariant
            i <= v.len(),
            out@.len() == i,
            texts(out@) =~= lowered(texts(v@)).subrange(0, i as int),
        decreases v.len() - i,
    {
        let l = lowercase(v[i].as_str());
        out.push(l);
        assert(lowered(texts(v@))[i as int] == lower_of(v@[i as int]@));
        assert(texts(out@) =~= lowered(texts(v@)).subrange(0, i as int + 1)) by {
            assert(texts(out@)[i as int] == out@[i as int]@);
        }
        i = i + 1;
    }
    out
}

/// The products of a call: on-chain addresses are written in canonical form
/// and compared with the project's list, exactly or else after lowercasing.
pub fn match_enabled_products(chain: &Vec<ChainAddress>, project: &Vec<String>) -> (r: Vec<
    String,
>)
    ensures
        texts(r@) == enabled_products(chain@, texts(project@)),
{
    let mut formatted: Vec<String> = Vec::new();
    let mut i: usize = 0;
    while i < chain.len()
        invariant
            i <= chain.len(),
            formatted@.len() == i,
            texts(formatted@) =~= address_texts(chain@).subrange(0, i as int),
        decreases chain.len() - i,
    {
        formatted.push(format_address(&chain[i]));
        assert(texts(formatted@) =~= address_texts(chain@).subrange(0, i as int + 1)) by {
            assert(texts(formatted@)[i as int] == formatted@[i as int]@);
        }
        i = i + 1;
    }
    assert(address_texts(chain@).subrange(0, chain.len() as int) =~= address_texts(chain@));
    let formatted_lower = lower_all(&formatted);
    let project_lower = lower_all(project);
    select_enabled(&formatted, &formatted_lower, project, &project_lower)
}

proof fn lemma_keep_listed_members(s: Seq<Seq<char>>, listed: Seq<Seq<char>>, x: Seq<char>)
    ensures
        keep_listed(s, listed).contains(x) <==> s.contains(x) && listed.contains(x),
    decreases s.len(),
{
    if s.len() > 0 {
        let init = keep_listed(s.drop_last(), listed);
        lemma_keep_listed_members(s.drop_last(), listed, x);
        if s.contains(x) && x != s.last() {
            let k = choose|k: int| 0 <= k < s.len() && s[k] == x;
            assert(s.drop_last()[k] == x);
        }
        if s.drop_last().contains(x) {
            let k = choose|k: int| 0 <= k < s.drop_last().len() && s.drop_last()[k] == x;
            assert(s[k] == x);
        }
        if x == s.last() {
            assert(s[s.len() - 1] == x);
        }
        if listed.contains(s.last()) {
            let r = init.push(s.last());
            assert(r[r.len() - 1] == s.last());
            if init.contains(x) {
                let k = choose|k: int| 0 <= k < init.len() && init[k] == x;
                assert(r[k] == x);
            }
            if r.contains(x) && x != s.last() {
                let k = choose|k: int| 0 <= k < r.len() && r[k] == x;
                assert(init[k] == x);
            }
        }
    }
}

/// Product matching is an intersection. When the exact intersection of the
/// on-chain and project lists is not empty, the products are exactly the
/// on-chain entries that the project also lists. When it is empty and the
/// lowercase intersection is not, the products are exactly the lowercase
/// on-chain entries that also occur among the lowercase project entries.
pub proof fn lemma_matching_is_intersection(
    chain: Seq<ChainAddress>,
    project: Seq<Seq<char>>,
    x: Seq<char>,
)
    ensures
        keep_listed(address_texts(chain), project).len() > 0 ==> (enabled_products(
            chain,
            project,
        ).contains(x) <==> address_texts(chain).contains(x) && project.contains(x)),
        keep_listed(address_texts(chain), project).len() == 0 && keep_listed(
            lowered(address_texts(chain)),
            lowered(project),
        ).len() > 0 ==> (enabled_products(chain, project).contains(x) <==> lowered(
            address_texts(chain),
        ).contains(x) && lowered(project).contains(x)),
{
    lemma_keep_listed_members(address_texts(chain), project, x);
    lemma_keep_listed_members(lowered(address_texts(chain)), lowered(project), x);
}

} // verus!
