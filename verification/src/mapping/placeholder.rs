//! The steps that map a payload twice on Windows: a reserved placeholder is split, and each
//! half of it is replaced by a view of the section.

use crate::error::{platform_invariant, Error};
use crate::mapping::payload::Region;
use crate::mapping::Layout;
use vstd::prelude::*;

verus! {

/// A request to the system.
#[derive(Clone, Copy, Debug, PartialEq, Eq, Structural)]
pub enum PlaceholderRequest {
    /// Reserve a placeholder of `len` bytes anywhere.
    Reserve { len: usize },
    /// Split the placeholder at `address` after its first `len` bytes.
    Split { address: usize, len: usize },
    /// Replace the placeholder of `len` bytes at `address` by a view of the section from
    /// `offset` on.
    Replace { address: usize, len: usize, offset: usize },
}

/// How far the payload is mapped.
#[derive(Clone, Copy, Debug, PartialEq, Eq, Structural)]
pub enum PlaceholderStage {
    Reserving,
    Splitting { base: usize },
    First { base: usize },
    Second { base: usize, first: usize },
}

/// What a mapping has obtained so far.
#[derive(Clone, Copy, Debug, PartialEq, Eq, Structural)]
pub struct Holdings {
    /// The view that is mapped, which is given back by unmapping it.
    pub view: Option<Region>,
    /// The placeholder that the region begins with, which is given back by releasing it.
    pub leading: Option<Region>,
    /// The placeholder that the region ends with, which is given back by releasing it.
    pub trailing: Option<Region>,
}

/// A payload that is being mapped.
#[derive(Clone, Copy, Debug, PartialEq, Eq, Structural)]
pub struct PlaceholderMapping {
    layout: Layout,
    mapping_len: usize,
    stage: PlaceholderStage,
}

/// What follows a step.
#[derive(Clone, Copy, Debug, PartialEq, Eq)]
pub enum PlaceholderStep {
    /// Carry on with the next request.
    Continue(PlaceholderMapping),
    /// Both views are mapped, the first one at `address`.
    Mapped { address: usize },
    /// The step failed: give back what is held, then report the error.
    Failed { held: Holdings, error: Error },
}

impl PlaceholderMapping {
    /// The layout that is being mapped.
    pub closed spec fn layout(&self) -> Layout {
        self.layout
    }

    /// How far the payload is mapped.
    pub closed spec fn stage(&self) -> PlaceholderStage {
        self.stage
    }

    /// The length of both views together fits, and so does the region that holds them.
    pub closed spec fn wf(&self) -> bool {
        &&& self.mapping_len == 2 * self.layout.capacity
        &&& match self.stage {
            PlaceholderStage::Reserving => true,
            PlaceholderStage::Splitting { base } => base + self.mapping_len <= usize::MAX,
            PlaceholderStage::First { base } => base + self.mapping_len <= usize::MAX,
            PlaceholderStage::Second { base, first } => base + self.mapping_len <= usize::MAX,
        }
    }

    /// What is obtained in each stage: nothing, one placeholder, both halves of it, and then
    /// a view in the place of the first half.
    pub open spec fn held(&self) -> Holdings {
        let capacity = self.layout().capacity;
        match self.stage() {
            PlaceholderStage::Reserving => Holdings { view: None, leading: None, trailing: None },
            PlaceholderStage::Splitting { base } => Holdings {
                view: None,
                leading: Some(Region { address: base, len: (2 * capacity) as usize }),
                trailing: None,
            },
            PlaceholderStage::First { base } => Holdings {
                view: None,
                leading: Some(Region { address: base, len: capacity }),
                trailing: Some(Region { address: (base + capacity) as usize, len: capacity }),
            },
            PlaceholderStage::Second { base, first } => Holdings {
                view: Some(Region { address: first, len: capacity }),
                leading: None,
                trailing: Some(Region { address: (base + capacity) as usize, len: capacity }),
            },
        }
    }

    /// What is asked of the system in each stage: a placeholder, its split into halves, and
    /// a view of the payload in the place of each half.
    pub open spec fn spec_request(&self) -> PlaceholderRequest {
        let capacity = self.layout().capacity;
        match self.stage() {
            PlaceholderStage::Reserving => PlaceholderRequest::Reserve {
                len: (2 * capacity) as usize,
            },
            PlaceholderStage::Splitting { base } => PlaceholderRequest::Split {
                address: base,
                len: capacity,
            },
            PlaceholderStage::First { base } => PlaceholderRequest::Replace {
                address: base,
                len: capacity,
                offset: self.layout().page_size,
            },
            PlaceholderStage::Second { base, first } => PlaceholderRequest::Replace {
                address: (base + capacity) as usize,
                len: capacity,
                offset: self.layout().page_size,
            },
        }
    }

    /// What follows the system's answer to [`spec_request`](Self::spec_request). A failure
    /// gives back everything that is held.
    pub open spec fn spec_step(&self, answer: Result<usize, Error>) -> PlaceholderStep {
        match answer {
            Err(error) => PlaceholderStep::Failed { held: self.held(), error },
            Ok(address) => match self.stage() {
                PlaceholderStage::Reserving => PlaceholderStep::Continue(
                    self.at(PlaceholderStage::Splitting { base: address }),
                ),
                PlaceholderStage::Splitting { base } => PlaceholderStep::Continue(
                    self.at(PlaceholderStage::First { base }),
                ),
                PlaceholderStage::First { base } => PlaceholderStep::Continue(
                    self.at(PlaceholderStage::Second { base, first: address }),
                ),
                PlaceholderStage::Second { base, first } => PlaceholderStep::Mapped {
                    address: first,
                },
            },
        }
    }

    /// This mapping in another stage.
    pub closed spec fn at(&self, stage: PlaceholderStage) -> PlaceholderMapping {
        PlaceholderMapping { stage, ..*self }
    }

    /// Another stage keeps the layout.
    pub broadcast proof fn lemma_at(&self, stage: PlaceholderStage)
        ensures
            #[trigger] self.at(stage).layout() == self.layout(),
            self.at(stage).stage() == stage,
    {
    }

    /// Begins to map the payload of `layout`.
    pub fn new(layout: &Layout) -> (mapping: Result<Self, Error>)
        ensures
            mapping is Ok <==> 2 * layout.capacity <= usize::MAX,
            match mapping {
                Ok(mapping) => {
                    &&& mapping.wf()
                    &&& mapping.layout() == *layout
                    &&& mapping.stage() == PlaceholderStage::Reserving
                },
                Err(error) => error == Error::PlatformInvariant("double mapping overflow"),
            },
    {
        match layout.capacity.checked_mul(2) {
            Some(mapping_len) => Ok(
                PlaceholderMapping {
                    layout: *layout,
                    mapping_len,
                    stage: PlaceholderStage::Reserving,
                },
            ),
            None => Err(platform_invariant("double mapping overflow")),
        }
    }

    /// Returns what is asked of the system next.
    pub fn request(&self) -> (request: PlaceholderRequest)
        requires
            self.wf(),
        ensures
            request == self.spec_request(),
    {
        match self.stage {
            PlaceholderStage::Reserving => PlaceholderRequest::Reserve { len: self.mapping_len },
            PlaceholderStage::Splitting { base } => PlaceholderRequest::Split {
                address: base,
                len: self.layout.capacity,
            },
            PlaceholderStage::First { base } => PlaceholderRequest::Replace {
                address: base,
                len: self.layout.capacity,
                offset: self.layout.page_size,
            },
            PlaceholderStage::Second { base, first: _ } => PlaceholderRequest::Replace {
                address: base + self.layout.capacity,
                len: self.layout.capacity,
                offset: self.layout.page_size,
            },
        }
    }

    /// Takes the system's answer to the last request: the address of the placeholder or the
    /// view, or why there is none. A placeholder lies within the address space.
    pub fn step(&self, answer: Result<usize, Error>) -> (step: PlaceholderStep)
        requires
            self.wf(),
            answer matches Ok(address) ==> self.stage() == PlaceholderStage::Reserving ==> address
                + 2 * self.layout().capacity <= usize::MAX,
        ensures
            step == self.spec_step(answer),
            step matches PlaceholderStep::Continue(next) ==> next.wf(),
    {
        let address: usize = match answer {
            Ok(address) => address,
            Err(error) => return PlaceholderStep::Failed { held: self.holdings(), error },
        };
        match self.stage {
            PlaceholderStage::Reserving => PlaceholderStep::Continue(
                PlaceholderMapping {
                    stage: PlaceholderStage::Splitting { base: address },
                    ..*self
                },
            ),
            PlaceholderStage::Splitting { base } => PlaceholderStep::Continue(
                PlaceholderMapping { stage: PlaceholderStage::First { base }, ..*self },
            ),
            PlaceholderStage::First { base } => PlaceholderStep::Continue(
                PlaceholderMapping {
                    stage: PlaceholderStage::Second { base, first: address },
                    ..*self
                },
            ),
            PlaceholderStage::Second { base: _, first } => PlaceholderStep::Mapped {
                address: first,
            },
        }
    }

    fn holdings(&self) -> (held: Holdings)
        requires
            self.wf(),
        ensures
            held == self.held(),
    {
        let capacity: usize = self.layout.capacity;
        match self.stage {
            PlaceholderStage::Reserving => Holdings { view: None, leading: None, trailing: None },
            PlaceholderStage::Splitting { base } => Holdings {
                view: None,
                leading: Some(Region { address: base, len: self.mapping_len }),
                trailing: None,
            },
            PlaceholderStage::First { base } => Holdings {
                view: None,
                leading: Some(Region { address: base, len: capacity }),
                trailing: Some(Region { address: base + capacity, len: capacity }),
            },
            PlaceholderStage::Second { base, first } => Holdings {
                view: Some(Region { address: first, len: capacity }),
                leading: None,
                trailing: Some(Region { address: base + capacity, len: capacity }),
            },
        }
    }
}

/// A mapping whose four requests succeed, and whose first view is placed where it was asked
/// for, ends with two views that are adjacent, fill the placeholder, and show the same bytes
/// of the section.
pub proof fn law_replaced_views_are_adjacent_and_equal(
    start: PlaceholderMapping,
    base: usize,
    split: usize,
    second: usize,
)
    requires
        start.stage() == PlaceholderStage::Reserving,
        start.wf(),
        base + 2 * start.layout().capacity <= usize::MAX,
    ensures
        ({
            let splitting = start.spec_step(Ok(base))->Continue_0;
            let one = splitting.spec_step(Ok(split))->Continue_0;
            let two = one.spec_step(Ok(base))->Continue_0;
            let capacity = start.layout().capacity;
            let offset = start.layout().page_size;
            &&& start.spec_request() == PlaceholderRequest::Reserve { len: (2 * capacity) as usize }
            &&& splitting.spec_request() == PlaceholderRequest::Split {
                address: base,
                len: capacity,
            }
            &&& one.spec_request() == PlaceholderRequest::Replace {
                address: base,
                len: capacity,
                offset,
            }
            &&& two.spec_request() == PlaceholderRequest::Replace {
                address: (base + capacity) as usize,
                len: capacity,
                offset,
            }
            &&& two.spec_step(Ok(second)) == PlaceholderStep::Mapped { address: base }
        }),
{
    broadcast use PlaceholderMapping::lemma_at;

}

/// How many bytes of addresses something takes.
pub open spec fn taken(region: Option<Region>) -> int {
    match region {
        Some(region) => region.len as int,
        None => 0,
    }
}

/// A request that fails ends the mapping, and what is then given back takes exactly as many
/// addresses as were reserved: none before the placeholder is reserved, and both halves of
/// it afterwards, whether they are split, and whether the first of them is a view already.
pub proof fn law_failed_placeholders_are_given_back(mapping: PlaceholderMapping, error: Error)
    requires
        mapping.wf(),
    ensures
        mapping.spec_step(Err(error)) == (PlaceholderStep::Failed { held: mapping.held(), error }),
        ({
            let held = mapping.held();
            let all = taken(held.view) + taken(held.leading) + taken(held.trailing);
            match mapping.stage() {
                PlaceholderStage::Reserving => all == 0,
                PlaceholderStage::Splitting { base } => {
                    &&& all == 2 * mapping.layout().capacity
                    &&& held.leading->0.address == base
                },
                PlaceholderStage::First { base } => {
                    &&& all == 2 * mapping.layout().capacity
                    &&& held.leading->0.address == base
                    &&& held.trailing->0.address == base + mapping.layout().capacity
                },
                PlaceholderStage::Second { base, first } => {
                    &&& all == 2 * mapping.layout().capacity
                    &&& held.view->0.address == first
                    &&& held.trailing->0.address == base + mapping.layout().capacity
                },
            }
        }),
{
}

/// The payload is found where the system placed its first view, wherever that is, and each answer
/// leads on to the next request until both views are mapped.
pub proof fn law_mapped_payloads_begin_at_the_first_view(
    start: PlaceholderMapping,
    base: usize,
    split: usize,
    first: usize,
    second: usize,
)
    requires
        start.stage() == PlaceholderStage::Reserving,
        start.wf(),
        base + 2 * start.layout().capacity <= usize::MAX,
    ensures
        ({
            let splitting = start.spec_step(Ok(base));
            let one = splitting->Continue_0.spec_step(Ok(split));
            let two = one->Continue_0.spec_step(Ok(first));
            &&& splitting is Continue
            &&& one is Continue
            &&& two is Continue
            &&& two->Continue_0.held().view matches Some(view) && view.address == first && view.len
                == start.layout().capacity
            &&& two->Continue_0.spec_request() matches PlaceholderRequest::Replace {
                address,
                len,
                offset,
            } && address == base + start.layout().capacity && len == start.layout().capacity
                && offset == start.layout().page_size
            &&& two->Continue_0.spec_step(Ok(second)) == PlaceholderStep::Mapped { address: first }
        }),
{
    broadcast use PlaceholderMapping::lemma_at;

}

} // verus!
