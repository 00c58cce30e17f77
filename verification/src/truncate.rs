//! Cutting text down to a number of grapheme clusters, with a marker that
//! shows where something was cut off.
use vstd::prelude::*;
use unicode_segmentation::UnicodeSegmentation;

verus! {

/// The extended grapheme clusters of `s`, in order, as Unicode Standard
/// Annex #29 splits them.
pub uninterp spec fn grapheme_clusters(s: Seq<char>) -> Seq<Seq<char>>;

/// The pieces of `gs` written one after the other.
pub open spec fn concat(gs: Seq<Seq<char>>) -> Seq<char>
    decreases gs.len(),
{
    if gs.len() == 0 {
        seq![]
    } else {
        concat(gs.drop_last()) + gs.last()
    }
}

/// The first `n` pieces of `gs`, all of them where there are fewer.
pub open spec fn first_pieces(gs: Seq<Seq<char>>, n: nat) -> Seq<Seq<char>> {
    if n < gs.len() {
        gs.take(n as int)
    } else {
        gs
    }
}

/// What `truncate_text` gives back: the first `length` grapheme clusters
/// of `text`, followed by the first grapheme cluster of `symbol` where
/// `text` has more than `length` of them.
pub open spec fn spec_truncate_text(text: Seq<char>, length: nat, symbol: Seq<char>) -> Seq<char> {
    let g = grapheme_clusters(text);
    if length < g.len() {
        concat(g.take(length as int)) + concat(first_pieces(grapheme_clusters(symbol), 1))
    } else {
        concat(g)
    }
}

/// The first grapheme cluster of `s`, empty where `s` is empty.
pub open spec fn first_cluster(s: Seq<char>) -> Seq<char> {
    if grapheme_clusters(s).len() > 0 {
        grapheme_clusters(s)[0]
    } else {
        Seq::empty()
    }
}

/// Writing one more piece adds that piece at the end.
pub proof fn lemma_concat_take_step(gs: Seq<Seq<char>>, k: int)
    requires
        0 <= k < gs.len(),
    ensures
        concat(gs.take(k + 1)) == concat(gs.take(k)) + gs[k],
{
    assert(gs.take(k + 1).drop_last() =~= gs.take(k));
}

/// Cutting keeps exactly the first `length` grapheme clusters of `text`
/// and adds the first cluster of `symbol`, for every `length` below the
/// number of clusters; for any other `length` all of `text`'s clusters
/// are kept and nothing is added.
pub proof fn lemma_truncate_keeps_first_clusters(text: Seq<char>, length: nat, symbol: Seq<char>)
    ensures
        length < grapheme_clusters(text).len() ==> spec_truncate_text(text, length, symbol)
            == concat(grapheme_clusters(text).take(length as int)) + first_cluster(symbol),
        length >= grapheme_clusters(text).len() ==> spec_truncate_text(text, length, symbol)
            == concat(grapheme_clusters(text)),
{
    let sv = grapheme_clusters(symbol);
    if sv.len() > 0 {
        assert(sv.take(1).drop_last() =~= Seq::<Seq<char>>::empty());
        assert(first_pieces(sv, 1) =~= sv.take(1));
        assert(concat(Seq::<Seq<char>>::empty()) == Seq::<char>::empty());
        assert(concat(sv.take(1)) =~= sv[0]);
    }
}

/// Calls `UnicodeSegmentation::graphemes(s, true)` of the crate
/// `unicode-segmentation` and collects the clusters. Claimed: the clusters
/// are `grapheme_clusters(s@)`, and, as the crate's iterator hands out the
/// consecutive slices of `s` between one boundary and the next, from the
/// start of `s` to its end, written one after the other they give `s` back.
#[verifier::external_body]
fn graphemes<'a>(s: &'a str) -> (gs: Vec<&'a str>)
    ensures
        gs@.map_values(|g: &'a str| g@) == grapheme_clusters(s@),
        concat(gs@.map_values(|g: &'a str| g@)) == s@,
{
    s.graphemes(true).collect()
}

/// Writes the pieces `gs[0..k]` one after the other.
fn join_first<'a>(gs: &Vec<&'a str>, k: usize) -> (r: String)
    requires
        k <= gs@.len(),
    ensures
        r@ == concat(gs@.map_values(|g: &'a str| g@).take(k as int)),
{
    let ghost views = gs@.map_values(|g: &'a str| g@);
    let mut r = String::new();
    let mut i: usize = 0;
    assert(views.take(0) =~= Seq::<Seq<char>>::empty());
    while i < k
        invariant
            k <= gs@.len(),
            views == gs@.map_values(|g: &'a str| g@),
            i <= k,
            r@ == concat(views.take(i as int)),
        decreases k - i,
    {
        r.append(gs[i]);
        proof {
            assert(views.take(i + 1).drop_last() =~= views.take(i as int));
            assert(views.take(i + 1).last() == gs@[i as int]@);
        }
        i = i + 1;
    }
    r
}

/// Truncates `text` to `length` grapheme clusters. Where something was cut
/// off, the first grapheme cluster of `truncation_symbol` follows; where
/// nothing was, `text` comes back unchanged.
pub fn truncate_text(text: &str, length: usize, truncation_symbol: &str) -> (r: String)
    ensures
        r@ == spec_truncate_text(text@, length as nat, truncation_symbol@),
        length >= grapheme_clusters(text@).len() ==> r@ == text@,
        length == usize::MAX ==> r@ == text@,
        length < grapheme_clusters(text@).len() ==> r@ == concat(
            grapheme_clusters(text@).take(length as int),
        ) + first_cluster(truncation_symbol@),
{
    let gs = graphemes(text);
    let ghost g = gs@.map_values(|x: &str| x@);
    let n = gs.len();
    if length < n {
        let mut r = join_first(&gs, length);
        let sg = graphemes(truncation_symbol);
        let ghost sv = sg@.map_values(|x: &str| x@);
        if sg.len() > 0 {
            let first = join_first(&sg, 1);
            assert(sv.take(1) == first_pieces(sv, 1));
            assert(sv.take(1).drop_last() =~= Seq::<Seq<char>>::empty());
            assert(concat(Seq::<Seq<char>>::empty()) == Seq::<char>::empty());
            assert(concat(sv.take(1)) =~= sv[0]);
            r.append(first.as_str());
        } else {
            assert(first_pieces(sv, 1) =~= sv);
            assert(sv.len() == 0);
            assert(concat(sv) =~= Seq::<char>::empty());
        }
        r
    } else {
        let r = join_first(&gs, n);
        assert(g.take(n as int) =~= g);
        r
    }
}

} // verus!
