use vstd::prelude::*;
use crate::node::DocNode;

verus! {

/// The node sequences that a vector of slides holds.
pub open spec fn slide_views(slides: Seq<Vec<DocNode>>) -> Seq<Seq<DocNode>> {
    slides.map_values(|s: Vec<DocNode>| s@)
}

/// The slides of a document, given by its top-level nodes.
///
/// The nodes are taken in order. A heading of rank 1 or 2 closes the
/// slide under construction and opens a new one, unless that slide is
/// still empty; every node, such a heading too, then joins the slide
/// under construction. The slide under construction at the end is the
/// last slide.
pub open spec fn segment_spec(nodes: Seq<DocNode>) -> Seq<Seq<DocNode>>
    decreases nodes.len(),
{
    if nodes.len() == 0 {
        seq![Seq::empty()]
    } else {
        let before = segment_spec(nodes.drop_last());
        let node = nodes.last();
        if node.opens_slide() && before.last().len() > 0 {
            before.push(seq![node])
        } else {
            before.update(before.len() - 1, before.last().push(node))
        }
    }
}

/// Whether `slides` is cut as the segmenter cuts: there is a first slide,
/// which is empty only if it is the only one; every later slide starts
/// with a heading of rank 1 or 2; and no slide holds such a heading
/// after its first node.
pub open spec fn well_cut(slides: Seq<Seq<DocNode>>) -> bool {
    &&& slides.len() >= 1
    &&& slides.len() > 1 ==> slides[0].len() > 0
    &&& forall|k: int|
        0 < k < slides.len() ==> (#[trigger] slides[k]).len() > 0 && slides[k][0].opens_slide()
    &&& forall|k: int, j: int|
        0 <= k < slides.len() && 0 < j < slides[k].len() ==> !(
        #[trigger] slides[k][j]).opens_slide()
}

/// A document has at least one slide, and its last slide is empty only
/// where the document is.
pub proof fn lemma_segment_last(nodes: Seq<DocNode>)
    ensures
        segment_spec(nodes).len() >= 1,
        nodes.len() > 0 ==> segment_spec(nodes).last().len() > 0,
    decreases nodes.len(),
{
    if nodes.len() > 0 {
        lemma_segment_last(nodes.drop_last());
    }
}

/// An empty document has exactly one slide, which is empty.
pub proof fn lemma_segment_empty()
    ensures
        segment_spec(Seq::<DocNode>::empty()) == seq![Seq::<DocNode>::empty()],
{
}

/// Coverage: the slides of a document, put end to end, are the document:
/// the same nodes in the same order, none lost and none twice.
pub proof fn lemma_segment_covers(nodes: Seq<DocNode>)
    ensures
        segment_spec(nodes).flatten() == nodes,
    decreases nodes.len(),
{
    if nodes.len() == 0 {
        seq![Seq::<DocNode>::empty()].lemma_flatten_one_element();
        assert(segment_spec(nodes).flatten() =~= nodes);
    } else {
        let before = segment_spec(nodes.drop_last());
        let node = nodes.last();
        lemma_segment_covers(nodes.drop_last());
        lemma_segment_last(nodes.drop_last());
        assert(nodes =~= nodes.drop_last().push(node));
        if node.opens_slide() && before.last().len() > 0 {
            before.lemma_flatten_push(seq![node]);
            assert(segment_spec(nodes).flatten() =~= nodes);
        } else {
            let grown = before.last().push(node);
            assert(before =~= before.drop_last().push(before.last()));
            assert(segment_spec(nodes) =~= before.drop_last().push(grown));
            before.drop_last().lemma_flatten_push(before.last());
            before.drop_last().lemma_flatten_push(grown);
            assert(segment_spec(nodes).flatten() =~= nodes);
        }
    }
}

/// The slides of a document are cut by its headings of rank 1 and 2 alone:
/// every slide after the first starts with such a heading, no slide holds
/// one after its first node, and the first slide of a document that is
/// not empty is not empty.
pub proof fn lemma_segment_split_rule(nodes: Seq<DocNode>)
    ensures
        well_cut(segment_spec(nodes)),
        nodes.len() > 0 ==> segment_spec(nodes)[0].len() > 0,
    decreases nodes.len(),
{
    if nodes.len() > 0 {
        let before = segment_spec(nodes.drop_last());
        let node = nodes.last();
        let slides = segment_spec(nodes);
        lemma_segment_split_rule(nodes.drop_last());
        lemma_segment_last(nodes.drop_last());
        if node.opens_slide() && before.last().len() > 0 {
            assert forall|k: int| 0 < k < slides.len() implies (#[trigger] slides[k]).len() > 0
                && slides[k][0].opens_slide() by {
                if k < before.len() {
                    assert(slides[k] == before[k]);
                }
            }
            assert forall|k: int, j: int|
                0 <= k < slides.len() && 0 < j < slides[k].len() implies !(
            #[trigger] slides[k][j]).opens_slide() by {
                if k < before.len() {
                    assert(slides[k] == before[k]);
                }
            }
        } else {
            let last = before.len() - 1;
            assert forall|k: int| 0 < k < slides.len() implies (#[trigger] slides[k]).len() > 0
                && slides[k][0].opens_slide() by {
                if k < last {
                    assert(slides[k] == before[k]);
                } else {
                    assert(before[k].len() > 0);
                    assert(slides[k][0] == before[k][0]);
                }
            }
            assert forall|k: int, j: int|
                0 <= k < slides.len() && 0 < j < slides[k].len() implies !(
            #[trigger] slides[k][j]).opens_slide() by {
                if k < last {
                    assert(slides[k] == before[k]);
                } else if j < before[k].len() {
                    assert(slides[k][j] == before[k][j]);
                }
            }
        }
    }
}

/// The position in the document of the first node of slide `k`: the number
/// of nodes in the slides before it.
pub open spec fn slide_start(slides: Seq<Seq<DocNode>>, k: int) -> nat {
    slides.take(k).flatten().len()
}

/// Whether a slide after the first starts at position `i` of the document.
pub open spec fn starts_new_slide(slides: Seq<Seq<DocNode>>, i: int) -> bool {
    exists|k: int| 0 < k < slides.len() && #[trigger] slide_start(slides, k) == i
}

/// A slide ends where the next starts, and the last ends with the document.
proof fn lemma_slide_start_next(slides: Seq<Seq<DocNode>>, k: int)
    requires
        0 <= k < slides.len(),
    ensures
        slide_start(slides, k + 1) == slide_start(slides, k) + slides[k].len(),
        slide_start(slides, slides.len() as int) == slides.flatten().len(),
{
    assert(slides.take(k + 1) =~= slides.take(k).push(slides[k]));
    slides.take(k).lemma_flatten_push(slides[k]);
    assert(slides.take(slides.len() as int) =~= slides);
}

/// A slide that is not empty starts before the end of the document.
proof fn lemma_slide_start_bound(slides: Seq<Seq<DocNode>>, k: int)
    requires
        0 <= k < slides.len(),
    ensures
        slide_start(slides, k) + slides[k].len() <= slides.flatten().len(),
    decreases slides.len() - k,
{
    lemma_slide_start_next(slides, k);
    if k + 1 < slides.len() {
        lemma_slide_start_bound(slides, k + 1);
    }
}

/// The split rule, node by node: a slide after the first starts at a node
/// if and only if the node is a heading of rank 1 or 2 and not the first
/// node of the document. So a heading of rank 3 or more never starts a
/// slide, nor does anything that is no heading.
pub proof fn lemma_segment_starts(nodes: Seq<DocNode>, i: int)
    requires
        0 <= i < nodes.len(),
    ensures
        starts_new_slide(segment_spec(nodes), i) <==> i > 0 && nodes[i].opens_slide(),
    decreases nodes.len(),
{
    let prefix = nodes.drop_last();
    let before = segment_spec(prefix);
    let slides = segment_spec(nodes);
    let node = nodes.last();
    let n = nodes.len() - 1;
    lemma_segment_covers(prefix);
    lemma_segment_last(prefix);
    lemma_segment_split_rule(prefix);
    assert forall|k: int| 0 <= k < before.len() implies #[trigger] slide_start(slides, k)
        == slide_start(before, k) by {
        assert(slides.take(k) =~= before.take(k));
    }
    assert forall|k: int| 0 < k < before.len() implies #[trigger] slide_start(before, k) < n by {
        lemma_slide_start_bound(before, k);
    }
    if i < n {
        lemma_segment_starts(prefix, i);
        assert(prefix[i] == nodes[i]);
        if starts_new_slide(before, i) {
            let k = choose|k: int| 0 < k < before.len() && #[trigger] slide_start(before, k) == i;
            assert(slide_start(slides, k) == i);
        }
        if starts_new_slide(slides, i) {
            let k = choose|k: int| 0 < k < slides.len() && #[trigger] slide_start(slides, k) == i;
            if k < before.len() {
                assert(slide_start(before, k) == i);
            } else {
                lemma_slide_start_next(before, before.len() - 1);
                assert(slides.take(k) =~= before);
            }
        }
    } else {
        if node.opens_slide() && before.last().len() > 0 {
            assert(slides.take(before.len() as int) =~= before);
            assert(slide_start(slides, before.len() as int) == i);
        } else {
            if starts_new_slide(slides, i) {
                let k = choose|k: int|
                    0 < k < slides.len() && #[trigger] slide_start(slides, k) == i;
                assert(slide_start(before, k) < n);
            }
        }
    }
}

/// The cut is the only one: slides that are cut as the segmenter cuts are
/// the slides of the document that they make up, put end to end.
pub proof fn lemma_well_cut_is_segmentation(slides: Seq<Seq<DocNode>>)
    requires
        well_cut(slides),
    ensures
        segment_spec(slides.flatten()) == slides,
    decreases slides.len(), slides.last().len(),
{
    let last = slides.last();
    let front = slides.drop_last();
    assert(slides =~= front.push(last));
    front.lemma_flatten_push(last);
    if last.len() == 0 {
        assert(slides.len() == 1);
        assert(front =~= Seq::<Seq<DocNode>>::empty());
        assert(slides.flatten() =~= Seq::<DocNode>::empty());
        assert(slides =~= seq![Seq::<DocNode>::empty()]);
    } else {
        let node = last.last();
        let before = if last.len() == 1 && slides.len() > 1 {
            front
        } else {
            front.push(last.drop_last())
        };
        assert(before.flatten().push(node) =~= slides.flatten()) by {
            assert(last =~= last.drop_last().push(node));
            if last.len() == 1 && slides.len() > 1 {
                assert(last =~= seq![node]);
            } else {
                front.lemma_flatten_push(last.drop_last());
            }
        }
        assert(well_cut(before)) by {
            assert forall|k: int| 0 < k < before.len() implies (#[trigger] before[k]).len() > 0
                && before[k][0].opens_slide() by {
                assert(slides[k].len() > 0 && slides[k][0].opens_slide());
                if k == slides.len() - 1 {
                    assert(before[k][0] == slides[k][0]);
                }
            }
            assert forall|k: int, j: int|
                0 <= k < before.len() && 0 < j < before[k].len() implies !(
            #[trigger] before[k][j]).opens_slide() by {
                assert(!slides[k][j].opens_slide());
                if k == slides.len() - 1 {
                    assert(before[k][j] == slides[k][j]);
                }
            }
            if before.len() > 1 {
                assert(before[0] == slides[0]);
            }
        }
        lemma_well_cut_is_segmentation(before);
        assert(slides.flatten().drop_last() =~= before.flatten());
        assert(slides.flatten().last() == node);
        if last.len() == 1 && slides.len() > 1 {
            assert(node == slides[slides.len() - 1][0]);
            assert(before.last().len() > 0) by {
                if before.len() > 1 {
                    assert(before.last() == slides[before.len() - 1]);
                } else {
                    assert(before.last() == slides[0]);
                }
            }
            assert(seq![node] =~= last);
            assert(before.push(seq![node]) =~= slides);
        } else {
            if last.len() > 1 {
                assert(node == slides[slides.len() - 1][last.len() - 1]);
            }
            assert(before.last().push(node) =~= last);
            assert(before.update(before.len() - 1, before.last().push(node)) =~= slides);
        }
    }
}

/// The number of nodes of `nodes`, the first left out, that are headings
/// of rank 1 or 2.
pub open spec fn splits(nodes: Seq<DocNode>) -> nat
    decreases nodes.len(),
{
    if nodes.len() <= 1 {
        0
    } else {
        splits(nodes.drop_last()) + if nodes.last().opens_slide() {
            1nat
        } else {
            0nat
        }
    }
}

/// A document has one slide more than it has headings of rank 1 or 2
/// after its first node.
pub proof fn lemma_segment_count(nodes: Seq<DocNode>)
    ensures
        segment_spec(nodes).len() == 1 + splits(nodes),
    decreases nodes.len(),
{
    if nodes.len() > 0 {
        lemma_segment_count(nodes.drop_last());
        lemma_segment_last(nodes.drop_last());
    }
}

/// Splits the top-level nodes of a document into slides.
pub fn segment(nodes: Vec<DocNode>) -> (slides: Vec<Vec<DocNode>>)
    ensures
        slide_views(slides@) == segment_spec(nodes@),
        slides@.len() >= 1,
        nodes@.len() == 0 ==> slides@.len() == 1 && slides@[0]@.len() == 0,
{
    let ghost all = nodes@;
    let mut slides: Vec<Vec<DocNode>> = Vec::new();
    let mut current: Vec<DocNode> = Vec::new();
    assert(slide_views(slides@).push(current@) =~= segment_spec(all.take(0)));
    for node in it: nodes
        invariant
            it.seq() == all,
            slide_views(slides@).push(current@) == segment_spec(all.take(it.index())),
    {
        let ghost upto = all.take(it.index() + 1);
        proof {
            assert(upto.drop_last() =~= all.take(it.index()));
            assert(upto.last() == node);
        }
        if !current.is_empty() && node.is_slide_heading() {
            proof {
                assert(slide_views(slides@.push(current)) =~= slide_views(slides@).push(current@));
            }
            slides.push(current);
            current = Vec::new();
        }
        current.push(node);
        proof {
            assert(slide_views(slides@).push(current@) =~= segment_spec(upto));
        }
    }
    proof {
        assert(all.take(all.len() as int) =~= all);
        assert(slide_views(slides@.push(current)) =~= slide_views(slides@).push(current@));
        lemma_segment_last(all);
    }
    slides.push(current);
    proof {
        let cut = slide_views(slides@);
        assert(cut.len() == slides@.len());
        assert(cut[0] == slides@[0]@);
    }
    slides
}

} // verus!
