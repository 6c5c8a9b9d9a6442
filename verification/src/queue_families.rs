//! Finding the queue families that serve graphics and presentation.

use vstd::prelude::*;

verus! {

/// What a device reports of one of its queue families, together with the
/// answer to whether that family can present to the surface in question.
#[derive(Clone, Copy, Debug, PartialEq, Eq, Structural)]
pub struct QueueFamily {
    /// The number by which the device knows the family.
    pub id: u32,
    /// Whether the family takes graphics commands.
    pub supports_graphics: bool,
    /// Whether the family can present to the surface.  A family of which
    /// this was not asked, because another one had the role already, is
    /// entered as `false`.
    pub supports_present: bool,
}

/// The id of the first family of `families`, in the order of the sequence,
/// that `serves`.
pub open spec fn first_family(
    families: Seq<QueueFamily>,
    serves: spec_fn(QueueFamily) -> bool,
) -> Option<u32>
    decreases families.len(),
{
    if families.len() == 0 {
        None
    } else if serves(families[0]) {
        Some(families[0].id)
    } else {
        first_family(families.drop_first(), serves)
    }
}

/// The id of the first family of `families`, in the order of the sequence,
/// that takes graphics commands.
pub open spec fn first_graphics_family(families: Seq<QueueFamily>) -> Option<u32> {
    first_family(families, |family: QueueFamily| family.supports_graphics)
}

/// The id of the first family of `families`, in the order of the sequence,
/// that can present to the surface.
pub open spec fn first_present_family(families: Seq<QueueFamily>) -> Option<u32> {
    first_family(families, |family: QueueFamily| family.supports_present)
}

/// The first family of `families` that goes by `id`.
pub open spec fn family_by_id(families: Seq<QueueFamily>, id: u32) -> Option<QueueFamily>
    decreases families.len(),
{
    if families.len() == 0 {
        None
    } else if families[0].id == id {
        Some(families[0])
    } else {
        family_by_id(families.drop_first(), id)
    }
}

/// The role that is filled with `family` where `so_far` holds the family
/// found for it before, if any, and `serves` says whether `family` serves
/// it: the earlier family stays.
pub open spec fn filled_role(so_far: Option<u32>, family: QueueFamily, serves: bool) -> Option<
    u32,
> {
    match so_far {
        Some(id) => Some(id),
        None => if serves {
            Some(family.id)
        } else {
            None
        },
    }
}

/// The families chosen for graphics and for presentation.  One family may
/// serve both.
#[derive(Clone, Copy, Debug, PartialEq, Eq, Structural)]
pub struct QueueFamilies {
    graphics_family_id: Option<u32>,
    present_family_id: Option<u32>,
}

impl QueueFamilies {
    /// The id of the family chosen for graphics, if there is one.
    pub closed spec fn graphics_id(&self) -> Option<u32> {
        self.graphics_family_id
    }

    /// The id of the family chosen for presentation, if there is one.
    pub closed spec fn present_id(&self) -> Option<u32> {
        self.present_family_id
    }

    /// Whether both roles have a family.
    pub open spec fn is_complete(&self) -> bool {
        self.graphics_id() is Some && self.present_id() is Some
    }

    /// A search that has seen no family yet.
    pub fn none() -> (found: QueueFamilies)
        ensures
            found.graphics_id() is None,
            found.present_id() is None,
    {
        QueueFamilies { graphics_family_id: None, present_family_id: None }
    }

    /// Whether the search still has to learn of the next family whether it
    /// can present to the surface: it has to as long as no family has that
    /// role.
    pub fn wants_present(&self) -> (wanted: bool)
        ensures
            wanted == self.present_id() is None,
    {
        self.present_family_id.is_none()
    }

    /// Takes the next family into the search: it gets each role that it
    /// serves and that no earlier family has.
    pub fn record(&mut self, family: &QueueFamily)
        ensures
            final(self).graphics_id() == filled_role(
                old(self).graphics_id(),
                *family,
                family.supports_graphics,
            ),
            final(self).present_id() == filled_role(
                old(self).present_id(),
                *family,
                family.supports_present,
            ),
    {
        if self.graphics_family_id.is_none() && family.supports_graphics {
            self.graphics_family_id = Some(family.id);
        }
        if self.present_family_id.is_none() && family.supports_present {
            self.present_family_id = Some(family.id);
        }
    }

    /// Goes through `families` in order and takes, for each role, the first
    /// family that serves it.  The search ends as soon as both are found.
    pub fn new(families: &[QueueFamily]) -> (found: QueueFamilies)
        ensures
            found.graphics_id() == first_graphics_family(families@),
            found.present_id() == first_present_family(families@),
    {
        let mut found = QueueFamilies::none();
        let mut i: usize = 0;
        assert(families@.skip(0) =~= families@);
        while i < families.len()
            invariant
                i <= families.len(),
                first_graphics_family(families@) == match found.graphics_family_id {
                    Some(id) => Some(id),
                    None => first_graphics_family(families@.skip(i as int)),
                },
                first_present_family(families@) == match found.present_family_id {
                    Some(id) => Some(id),
                    None => first_present_family(families@.skip(i as int)),
                },
            ensures
                found.graphics_family_id == first_graphics_family(families@),
                found.present_family_id == first_present_family(families@),
            decreases families.len() - i,
        {
            assert(families@.skip(i as int).drop_first() =~= families@.skip(i as int + 1));
            found.record(&families[i]);
            if found._is_complete() {
                break;
            }
            i += 1;
        }
        found
    }

    /// The family chosen for graphics, looked up among `families`.
    pub fn graphics_family(&self, families: &[QueueFamily]) -> (family: Option<QueueFamily>)
        ensures
            family == match self.graphics_id() {
                Some(id) => family_by_id(families@, id),
                None => None,
            },
    {
        match self.graphics_family_id {
            Some(id) => queue_family_by_id(families, id),
            None => None,
        }
    }

    /// The family chosen for presentation, looked up among `families`.
    pub fn present_family(&self, families: &[QueueFamily]) -> (family: Option<QueueFamily>)
        ensures
            family == match self.present_id() {
                Some(id) => family_by_id(families@, id),
                None => None,
            },
    {
        match self.present_family_id {
            Some(id) => queue_family_by_id(families, id),
            None => None,
        }
    }

    /// Whether both roles have a family.
    pub fn _is_complete(&self) -> (complete: bool)
        ensures
            complete == self.is_complete(),
    {
        self.graphics_family_id.is_some() && self.present_family_id.is_some()
    }
}

/// The first family of `families` that goes by `id`.
pub fn queue_family_by_id(families: &[QueueFamily], id: u32) -> (family: Option<QueueFamily>)
    ensures
        family == family_by_id(families@, id),
{
    let mut i: usize = 0;
    assert(families@.skip(0) =~= families@);
    while i < families.len()
        invariant
            i <= families.len(),
            family_by_id(families@, id) == family_by_id(families@.skip(i as int), id),
        decreases families.len() - i,
    {
        assert(families@.skip(i as int).drop_first() =~= families@.skip(i as int + 1));
        if families[i].id == id {
            return Some(families[i]);
        }
        i += 1;
    }
    None
}

/// No family is found exactly when no family serves; and a family that is
/// found is the first that serves.
pub proof fn lemma_first_family(families: Seq<QueueFamily>, serves: spec_fn(QueueFamily) -> bool)
    ensures
        first_family(families, serves) is None <==> forall|i: int|
            0 <= i < families.len() ==> !serves(#[trigger] families[i]),
        first_family(families, serves) matches Some(id) ==> exists|i: int|
            {
                &&& 0 <= i < families.len()
                &&& serves(#[trigger] families[i])
                &&& families[i].id == id
                &&& forall|j: int| 0 <= j < i ==> !serves(#[trigger] families[j])
            },
    decreases families.len(),
{
    if families.len() == 0 {
    } else if serves(families[0]) {
        assert(serves(families[0]) && families[0].id == first_family(families, serves)->0);
    } else {
        let rest = families.drop_first();
        lemma_first_family(rest, serves);
        assert(forall|i: int| 0 <= i < rest.len() ==> rest[i] == families[i + 1]);
        if first_family(rest, serves) is None {
            assert forall|i: int| 0 <= i < families.len() implies !serves(
                #[trigger] families[i],
            ) by {
                if i > 0 {
                    assert(!serves(rest[i - 1]));
                }
            }
        } else {
            let id = first_family(rest, serves)->0;
            let k = choose|k: int|
                {
                    &&& 0 <= k < rest.len()
                    &&& serves(#[trigger] rest[k])
                    &&& rest[k].id == id
                    &&& forall|j: int| 0 <= j < k ==> !serves(#[trigger] rest[j])
                };
            assert(serves(families[k + 1]) && families[k + 1].id == id);
            assert forall|j: int| 0 <= j < k + 1 implies !serves(#[trigger] families[j]) by {
                if j > 0 {
                    assert(!serves(rest[j - 1]));
                }
            }
        }
    }
}

/// A family that is found among the first `seen` families is the one that
/// is found among them all: the families behind it have no say.
pub proof fn lemma_found_early(
    families: Seq<QueueFamily>,
    seen: int,
    serves: spec_fn(QueueFamily) -> bool,
)
    requires
        0 <= seen <= families.len(),
        first_family(families.take(seen), serves) is Some,
    ensures
        first_family(families, serves) == first_family(families.take(seen), serves),
    decreases seen,
{
    let early = families.take(seen);
    assert(early[0] == families[0]);
    if !serves(families[0]) {
        assert(early.drop_first() =~= families.drop_first().take(seen - 1));
        lemma_found_early(families.drop_first(), seen - 1, serves);
    }
}

/// No family is found for graphics exactly when no family takes graphics
/// commands; and a family that is found is the first that takes them.
pub proof fn lemma_first_graphics_family(families: Seq<QueueFamily>)
    ensures
        first_graphics_family(families) is None <==> forall|i: int|
            0 <= i < families.len() ==> !(#[trigger] families[i]).supports_graphics,
        first_graphics_family(families) matches Some(id) ==> exists|i: int|
            {
                &&& 0 <= i < families.len()
                &&& (#[trigger] families[i]).supports_graphics
                &&& families[i].id == id
                &&& forall|j: int| 0 <= j < i ==> !(#[trigger] families[j]).supports_graphics
            },
{
    lemma_first_family(families, |family: QueueFamily| family.supports_graphics);
}

/// No family is found for presentation exactly when no family can present
/// to the surface; and a family that is found is the first that can.
pub proof fn lemma_first_present_family(families: Seq<QueueFamily>)
    ensures
        first_present_family(families) is None <==> forall|i: int|
            0 <= i < families.len() ==> !(#[trigger] families[i]).supports_present,
        first_present_family(families) matches Some(id) ==> exists|i: int|
            {
                &&& 0 <= i < families.len()
                &&& (#[trigger] families[i]).supports_present
                &&& families[i].id == id
                &&& forall|j: int| 0 <= j < i ==> !(#[trigger] families[j]).supports_present
            },
{
    lemma_first_family(families, |family: QueueFamily| family.supports_present);
}

} // verus!
