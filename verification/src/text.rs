use vstd::prelude::*;

use crate::color::Color;

verus! {

/// How text is aligned horizontally within the area given to it.
#[derive(Copy, Clone, PartialEq, Eq, Debug, Structural)]
pub enum HorizontalTextAlignment {
    Left,
    Center,
    Right,
}

/// How text is aligned vertically within the area given to it.
#[derive(Copy, Clone, PartialEq, Eq, Debug, Structural)]
pub enum VerticalTextAlignment {
    Bottom,
    Center,
    Top,
}

/// Which part behind text is filled with the background color.
#[derive(Copy, Clone, PartialEq, Eq, Debug, Structural)]
pub enum TextBackgroundFillMode {
    /// No background is drawn.
    DoNot,
    /// Only the region where the text was drawn.
    DrawnRegion,
    /// The entire domain of the component.
    EntireDomain,
}

/// How text is drawn: with which font (`None`: the default font), in which
/// colors, and how its background is filled.
#[derive(Clone, PartialEq, Eq, Debug)]
pub struct TextStyle {
    pub font_id: Option<String>,
    pub text_color: Color,
    pub background_color: Color,
    pub background_fill_mode: TextBackgroundFillMode,
}

/// Identifies a font that was registered with a text renderer; handles are
/// handed out in the order in which fonts are registered.
#[derive(Copy, Clone, PartialEq, Eq, Debug, Hash, Structural)]
pub struct FontHandle {
    internal: u16,
}

impl FontHandle {
    /// The position at which the font was registered.
    pub closed spec fn index(self) -> u16 {
        self.internal
    }

    /// The handle of the font that was registered at the given position.
    pub fn new(index: u16) -> (r: Self)
        ensures
            r.index() == index,
    {
        FontHandle { internal: index }
    }

    /// Gets the position at which the font was registered.
    pub fn get_index(&self) -> (r: u16)
        ensures
            r == self.index(),
    {
        self.internal
    }
}

/// Tells a component that the user typed a single grapheme cluster without
/// being asked for text input.
pub struct CharTypeEvent {
    text: String,
}

impl CharTypeEvent {
    /// The text that was typed.
    pub closed spec fn text(&self) -> Seq<char> {
        self.text@
    }

    /// Constructs the event for the given typed text.
    pub fn new(text: String) -> (r: Self)
        ensures
            r.text() == text@,
    {
        CharTypeEvent { text }
    }

    /// Gets the text that was typed.
    pub fn get_text(&self) -> (r: &str)
        ensures
            r@ == self.text(),
    {
        self.text.as_str()
    }
}

/// The element indices that draw `num_quads` quads of 4 vertices each as two
/// triangles: `(4i, 4i+1, 4i+2)` and `(4i+2, 4i+3, 4i)` for quad `i`.
pub open spec fn quad_indices_spec(num_quads: nat) -> Seq<u32> {
    Seq::new(6 * num_quads, |k: int| {
        let base = 4 * (k / 6);
        let corner = k % 6;
        (if corner == 0 {
            base
        } else if corner == 1 {
            base + 1
        } else if corner == 2 {
            base + 2
        } else if corner == 3 {
            base + 2
        } else if corner == 4 {
            base + 3
        } else {
            base
        }) as u32
    })
}

/// Builds the element indices of `num_quads` quads; see `quad_indices_spec`.
/// Every index must fit in a `u32`.
pub fn quad_element_indices(num_quads: usize) -> (r: Vec<u32>)
    requires
        4 * num_quads <= u32::MAX + 1,
        6 * num_quads <= usize::MAX,
    ensures
        r@ == quad_indices_spec(num_quads as nat),
{
    let mut elements: Vec<u32> = Vec::with_capacity(6 * num_quads);
    let mut index: usize = 0;
    while index < num_quads
        invariant
            index <= num_quads,
            4 * num_quads <= u32::MAX + 1,
            elements@.len() == 6 * index,
            forall|k: int| 0 <= k < elements@.len() ==> #[trigger] elements@[k] == quad_indices_spec(num_quads as nat)[k],
        decreases num_quads - index,
    {
        let vertex_offset = (4 * index) as u32;
        elements.push(vertex_offset);
        elements.push(vertex_offset + 1);
        elements.push(vertex_offset + 2);
        elements.push(vertex_offset + 2);
        elements.push(vertex_offset + 3);
        elements.push(vertex_offset);
        proof {
            let s = quad_indices_spec(num_quads as nat);
            let b = 6 * index as int;
            assert forall|c: int| 0 <= c < 6 implies #[trigger] elements@[b + c] == s[b + c] by {
                assert((b + c) / 6 == index as int) by (nonlinear_arith)
                    requires b == 6 * index, 0 <= c < 6;
                assert((b + c) % 6 == c) by (nonlinear_arith)
                    requires b == 6 * index, 0 <= c < 6;
            }
            assert forall|k: int| 0 <= k < elements@.len() implies #[trigger] elements@[k] == s[k] by {
                if k >= b {
                    assert(elements@[b + (k - b)] == s[b + (k - b)]);
                }
            }
        }
        index = index + 1;
    }
    assert(elements@ =~= quad_indices_spec(num_quads as nat));
    elements
}

/// The distinct atlas indices among `indices`, each of them once. (Which
/// order they come in is left open, as for the set that the text renderer
/// builds of them.)
pub fn distinct_indices(indices: &Vec<u16>) -> (r: Vec<u16>)
    ensures
        r@.no_duplicates(),
        r@.to_set() == indices@.to_set(),
{
    let mut distinct: Vec<u16> = Vec::new();
    let mut i: usize = 0;
    while i < indices.len()
        invariant
            i <= indices@.len(),
            distinct@.no_duplicates(),
            distinct@.to_set() == indices@.take(i as int).to_set(),
        decreases indices.len() - i,
    {
        let value = indices[i];
        let mut found = false;
        let mut j: usize = 0;
        while j < distinct.len()
            invariant
                j <= distinct@.len(),
                found <==> exists|k: int| 0 <= k < j && distinct@[k] == value,
            decreases distinct.len() - j,
        {
            if distinct[j] == value {
                found = true;
            }
            j = j + 1;
        }
        let ghost before = distinct@;
        proof {
            assert(indices@.take(i + 1) =~= indices@.take(i as int).push(value));
            assert(indices@.take(i as int).push(value).to_set() =~= indices@.take(i as int).to_set().insert(value)) by {
                assert forall|x: u16| indices@.take(i as int).push(value).to_set().contains(x) <==> indices@.take(i as int).to_set().insert(value).contains(x) by {
                    let t = indices@.take(i as int);
                    if t.push(value).contains(x) {
                        let k = choose|k: int| 0 <= k < t.push(value).len() && t.push(value)[k] == x;
                        if k < t.len() {
                            assert(t[k] == x);
                        }
                    }
                    if t.contains(x) {
                        let k = choose|k: int| 0 <= k < t.len() && t[k] == x;
                        assert(t.push(value)[k] == x);
                    }
                    if x == value {
                        assert(t.push(value)[t.len() as int] == x);
                    }
                }
            }
        }
        if !found {
            distinct.push(value);
            proof {
                assert(!before.contains(value));
                assert(distinct@ == before.push(value));
                assert(distinct@.no_duplicates()) by {
                    assert forall|a: int, b: int| 0 <= a < b < distinct@.len() implies distinct@[a] != distinct@[b] by {
                        if b == before.len() {
                            assert(before.contains(before[a]));
                        } else {
                            assert(before[a] != before[b]);
                        }
                    }
                }
                assert(distinct@.to_set() =~= before.to_set().insert(value)) by {
                    assert forall|x: u16| distinct@.to_set().contains(x) <==> before.to_set().insert(value).contains(x) by {
                        if distinct@.contains(x) {
                            let k = choose|k: int| 0 <= k < distinct@.len() && distinct@[k] == x;
                            if k < before.len() {
                                assert(before[k] == x);
                            }
                        }
                        if before.contains(x) {
                            let k = choose|k: int| 0 <= k < before.len() && before[k] == x;
                            assert(distinct@[k] == x);
                        }
                        if x == value {
                            assert(distinct@[before.len() as int] == x);
                        }
                    }
                }
            }
        } else {
            proof {
                let k = choose|k: int| 0 <= k < before.len() && before[k] == value;
                assert(before.contains(value));
                assert(before.to_set().insert(value) =~= before.to_set());
            }
        }
        i = i + 1;
    }
    assert(indices@.take(indices@.len() as int) =~= indices@);
    distinct
}

/// The number of positions in `indices` that hold `target`.
pub open spec fn count_of(indices: Seq<u16>, target: u16) -> nat
    decreases indices.len(),
{
    if indices.len() == 0 {
        0
    } else {
        count_of(indices.drop_last(), target) + if indices.last() == target { 1nat } else { 0nat }
    }
}

/// Counts the quads whose atlas index is `target`.
pub fn count_matching(indices: &Vec<u16>, target: u16) -> (r: usize)
    ensures
        r == count_of(indices@, target),
{
    let mut count: usize = 0;
    let mut i: usize = 0;
    while i < indices.len()
        invariant
            i <= indices@.len(),
            count == count_of(indices@.take(i as int), target),
            count <= i,
        decreases indices.len() - i,
    {
        proof {
            assert(indices@.take(i + 1).drop_last() =~= indices@.take(i as int));
        }
        if indices[i] == target {
            count = count + 1;
        }
        i = i + 1;
    }
    assert(indices@.take(indices@.len() as int) =~= indices@);
    count
}

/// The count of a target is how often it occurs: its multiplicity in the
/// multiset of the indices.
pub proof fn lemma_count_is_multiplicity(indices: Seq<u16>, target: u16)
    ensures
        count_of(indices, target) == indices.to_multiset().count(target),
    decreases indices.len(),
{
    broadcast use vstd::seq_lib::group_to_multiset_ensures;
    broadcast use vstd::multiset::group_multiset_axioms;

    if indices.len() > 0 {
        let rest = indices.drop_last();
        lemma_count_is_multiplicity(rest, target);
        assert(indices =~= rest.push(indices.last()));
        assert(indices.to_multiset() == rest.to_multiset().insert(indices.last()));
    } else {
        assert(indices.to_multiset() =~= vstd::multiset::Multiset::empty());
    }
}

} // verus!
