//! The steps that map a payload twice, and what is given back when a step fails.

use crate::error::{invalid_layout, platform_invariant, Error};
use crate::mapping::Layout;
use vstd::prelude::*;

verus! {

/// A range of addresses.
#[derive(Clone, Copy, Debug, PartialEq, Eq, Structural)]
pub struct Region {
    pub address: usize,
    pub len: usize,
}

/// A request to the system.
#[derive(Clone, Copy, Debug, PartialEq, Eq, Structural)]
pub enum MapRequest {
    /// Reserve `len` inaccessible bytes anywhere.
    Reserve { len: usize },
    /// Map `len` bytes of the object, from `offset` on, at exactly `address`.
    Share { address: usize, len: usize, offset: usize },
}

/// How far the payload is mapped.
#[derive(Clone, Copy, Debug, PartialEq, Eq, Structural)]
pub enum Stage {
    Reserving,
    First { base: usize },
    Second { base: usize },
}

/// How the ring of a payload is found.
#[derive(Clone, Copy, Debug, PartialEq, Eq, Structural)]
pub enum Sharing {
    /// Through a descriptor that is handed over.
    Anonymous,
    /// By its name.
    Named,
}

/// A payload that is being mapped.
#[derive(Clone, Copy, Debug, PartialEq, Eq, Structural)]
pub struct PayloadMapping {
    layout: Layout,
    sharing: Sharing,
    mapping_len: usize,
    stage: Stage,
}

/// What follows a step.
#[derive(Clone, Copy, Debug, PartialEq, Eq)]
pub enum MapStep {
    /// Carry on with the next request.
    Continue(PayloadMapping),
    /// Both views are mapped within the region.
    Mapped(Region),
    /// The step failed: unmap what is named, then report the error.
    Failed { stray: Option<Region>, reservation: Option<Region>, error: Error },
}

/// Checks the address that a mapping was placed at anywhere: there is no mapping at zero.
pub fn validate_placed(address: usize) -> (outcome: Result<(), Error>)
    ensures
        outcome == (if address == 0 {
            Err(Error::PlatformInvariant("null mapping"))
        } else {
            Ok(())
        }),
{
    if address == 0 {
        Err(platform_invariant("null mapping"))
    } else {
        Ok(())
    }
}

/// Checks the address that the header of a named ring was mapped at.
pub fn validate_named_header(address: usize) -> (outcome: Result<(), Error>)
    ensures
        outcome == (if address == 0 {
            Err(Error::PlatformInvariant("null header mapping"))
        } else {
            Ok(())
        }),
{
    if address == 0 {
        Err(platform_invariant("null header mapping"))
    } else {
        Ok(())
    }
}

/// Decides what the result of a mapping at a fixed address means: any other address is
/// a broken platform guarantee.
pub fn validate_fixed(requested: usize, returned: usize) -> (outcome: Result<(), Error>)
    ensures
        outcome == (if requested != returned {
            Err(Error::PlatformInvariant("MAP_FIXED returned another address"))
        } else {
            Ok(())
        }),
{
    if requested != returned {
        Err(platform_invariant("MAP_FIXED returned another address"))
    } else {
        Ok(())
    }
}

impl PayloadMapping {
    /// The layout that is being mapped.
    pub closed spec fn layout(&self) -> Layout {
        self.layout
    }

    /// How the ring of the payload is found.
    pub closed spec fn sharing(&self) -> Sharing {
        self.sharing
    }

    /// How far the payload is mapped.
    pub closed spec fn stage(&self) -> Stage {
        self.stage
    }

    /// The length of both views together fits, and so does the region that holds them.
    pub closed spec fn wf(&self) -> bool {
        &&& self.mapping_len == 2 * self.layout.capacity
        &&& match self.stage {
            Stage::Reserving => true,
            Stage::First { base } => base + self.mapping_len <= usize::MAX,
            Stage::Second { base } => base + self.mapping_len <= usize::MAX,
        }
    }

    /// The region that is mapped so far, and is given back if the mapping fails.
    pub open spec fn held(&self) -> Option<Region> {
        match self.stage() {
            Stage::Reserving => None,
            Stage::First { base } => Some(
                Region { address: base, len: (2 * self.layout().capacity) as usize },
            ),
            Stage::Second { base } => Some(
                Region { address: base, len: (2 * self.layout().capacity) as usize },
            ),
        }
    }

    /// What is asked of the system in each stage: the region, then each half of it at
    /// the payload's place in the object.
    pub open spec fn spec_request(&self) -> MapRequest {
        let capacity = self.layout().capacity;
        match self.stage() {
            Stage::Reserving => MapRequest::Reserve { len: (2 * capacity) as usize },
            Stage::First { base } => MapRequest::Share {
                address: base,
                len: capacity,
                offset: self.layout().page_size,
            },
            Stage::Second { base } => MapRequest::Share {
                address: (base + capacity) as usize,
                len: capacity,
                offset: self.layout().page_size,
            },
        }
    }

    /// What follows the system's answer to [`spec_request`](Self::spec_request).
    ///
    /// A failure gives back the region that is held, if any. Besides it, an anonymous ring
    /// gives back a mapping that the system placed elsewhere than it was asked to. There is no
    /// mapping at zero, which an anonymous ring finds before it maps the views, and a named one
    /// afterwards.
    pub open spec fn spec_step(&self, answer: Result<usize, Error>) -> MapStep {
        let capacity = self.layout().capacity;
        match answer {
            Err(error) => MapStep::Failed { stray: None, reservation: self.held(), error },
            Ok(address) => match self.spec_request() {
                MapRequest::Reserve { len } => if address == 0 && self.sharing()
                    == Sharing::Anonymous {
                    MapStep::Failed {
                        stray: None,
                        reservation: Some(Region { address, len }),
                        error: Error::PlatformInvariant("null mapping"),
                    }
                } else {
                    MapStep::Continue(self.at(Stage::First { base: address }))
                },
                MapRequest::Share { address: requested, len, offset } => if address != requested {
                    MapStep::Failed {
                        stray: match self.sharing() {
                            Sharing::Anonymous => Some(Region { address, len }),
                            Sharing::Named => None,
                        },
                        reservation: self.held(),
                        error: Error::PlatformInvariant("MAP_FIXED returned another address"),
                    }
                } else {
                    match self.stage() {
                        Stage::First { base } => MapStep::Continue(self.at(Stage::Second { base })),
                        _ => if self.held()->0.address == 0 && self.sharing() == Sharing::Named {
                            MapStep::Failed {
                                stray: None,
                                reservation: None,
                                error: Error::PlatformInvariant("null payload mapping"),
                            }
                        } else {
                            MapStep::Mapped(self.held()->0)
                        },
                    }
                },
            },
        }
    }

    /// This mapping in another stage.
    pub closed spec fn at(&self, stage: Stage) -> PayloadMapping {
        PayloadMapping { stage, ..*self }
    }

    /// Another stage keeps the layout.
    pub broadcast proof fn lemma_at(&self, stage: Stage)
        ensures
            #[trigger] self.at(stage).layout() == self.layout(),
            self.at(stage).sharing() == self.sharing(),
            self.at(stage).stage() == stage,
    {
    }

    /// Begins to map the payload of an anonymous ring with `layout`.
    pub fn new(layout: &Layout) -> (mapping: Result<Self, Error>)
        ensures
            mapping is Ok <==> 2 * layout.capacity <= usize::MAX,
            match mapping {
                Ok(mapping) => {
                    &&& mapping.wf()
                    &&& mapping.layout() == *layout
                    &&& mapping.sharing() == Sharing::Anonymous
                    &&& mapping.stage() == Stage::Reserving
                },
                Err(error) => error == Error::InvalidLayout("double mapping length overflows"),
            },
    {
        match layout.capacity.checked_mul(2) {
            Some(mapping_len) => Ok(
                PayloadMapping {
                    layout: *layout,
                    sharing: Sharing::Anonymous,
                    mapping_len,
                    stage: Stage::Reserving,
                },
            ),
            None => Err(invalid_layout("double mapping length overflows")),
        }
    }

    /// Begins to map the payload of a named ring with `layout`.
    pub fn named(layout: &Layout) -> (mapping: Result<Self, Error>)
        ensures
            mapping is Ok <==> 2 * layout.capacity <= usize::MAX,
            match mapping {
                Ok(mapping) => {
                    &&& mapping.wf()
                    &&& mapping.layout() == *layout
                    &&& mapping.sharing() == Sharing::Named
                    &&& mapping.stage() == Stage::Reserving
                },
                Err(error) => error == Error::PlatformInvariant("double mapping overflow"),
            },
    {
        match layout.capacity.checked_mul(2) {
            Some(mapping_len) => Ok(
                PayloadMapping {
                    layout: *layout,
                    sharing: Sharing::Named,
                    mapping_len,
                    stage: Stage::Reserving,
                },
            ),
            None => Err(platform_invariant("double mapping overflow")),
        }
    }

    /// Returns what is asked of the system next.
    pub fn request(&self) -> (request: MapRequest)
        requires
            self.wf(),
        ensures
            request == self.spec_request(),
    {
        match self.stage {
            Stage::Reserving => MapRequest::Reserve { len: self.mapping_len },
            Stage::First { base } => MapRequest::Share {
                address: base,
                len: self.layout.capacity,
                offset: self.layout.page_size,
            },
            Stage::Second { base } => MapRequest::Share {
                address: base + self.layout.capacity,
                len: self.layout.capacity,
                offset: self.layout.page_size,
            },
        }
    }

    /// Takes the system's answer to the last request: the address that it mapped, or why
    /// it did not. A region that was reserved lies within the address space.
    pub fn step(&self, answer: Result<usize, Error>) -> (step: MapStep)
        requires
            self.wf(),
            answer matches Ok(address) ==> self.stage() == Stage::Reserving ==> address + 2
                * self.layout().capacity <= usize::MAX,
        ensures
            step == self.spec_step(answer),
            step matches MapStep::Continue(next) ==> next.wf(),
    {
        let address: usize = match answer {
            Ok(address) => address,
            Err(error) => {
                return MapStep::Failed { stray: None, reservation: self.region(), error };
            },
        };
        match self.stage {
            Stage::Reserving => {
                if self.sharing == Sharing::Anonymous {
                    match validate_placed(address) {
                        Ok(()) => {},
                        Err(error) => {
                            let reservation = Some(Region { address, len: self.mapping_len });
                            return MapStep::Failed { stray: None, reservation, error };
                        },
                    }
                }
                MapStep::Continue(PayloadMapping { stage: Stage::First { base: address }, ..*self })
            },
            Stage::First { base } => match validate_fixed(base, address) {
                Ok(()) => MapStep::Continue(
                    PayloadMapping { stage: Stage::Second { base }, ..*self },
                ),
                Err(error) => self.misplaced(address, error),
            },
            Stage::Second { base } => match validate_fixed(base + self.layout.capacity, address) {
                Ok(()) => if base == 0 && self.sharing == Sharing::Named {
                    MapStep::Failed {
                        stray: None,
                        reservation: None,
                        error: platform_invariant("null payload mapping"),
                    }
                } else {
                    MapStep::Mapped(Region { address: base, len: self.mapping_len })
                },
                Err(error) => self.misplaced(address, error),
            },
        }
    }

    /// Ends a mapping one of whose views was placed at `address` instead.
    fn misplaced(&self, address: usize, error: Error) -> (step: MapStep)
        requires
            self.wf(),
        ensures
            step == (MapStep::Failed {
                stray: match self.sharing() {
                    Sharing::Anonymous => Some(Region { address, len: self.layout().capacity }),
                    Sharing::Named => None,
                },
                reservation: self.held(),
                error,
            }),
    {
        let stray = match self.sharing {
            Sharing::Anonymous => Some(Region { address, len: self.layout.capacity }),
            Sharing::Named => None,
        };
        MapStep::Failed { stray, reservation: self.region(), error }
    }

    fn region(&self) -> (held: Option<Region>)
        requires
            self.wf(),
        ensures
            held == self.held(),
    {
        match self.stage {
            Stage::Reserving => None,
            Stage::First { base } => Some(Region { address: base, len: self.mapping_len }),
            Stage::Second { base } => Some(Region { address: base, len: self.mapping_len }),
        }
    }
}

/// A mapping that succeeds asked for three things: a region, and both halves of it, which
/// are adjacent, fill it, and show the same bytes of the object.
pub proof fn law_views_are_adjacent_and_equal(
    start: PayloadMapping,
    base: usize,
    first: usize,
    second: usize,
    region: Region,
)
    requires
        start.stage() == Stage::Reserving,
        start.wf(),
        base + 2 * start.layout().capacity <= usize::MAX,
        ({
            let reserved = start.spec_step(Ok(base));
            &&& reserved is Continue
            &&& reserved->Continue_0.spec_step(Ok(first)) is Continue
            &&& reserved->Continue_0.spec_step(Ok(first))->Continue_0.spec_step(Ok(second))
                == MapStep::Mapped(region)
        }),
    ensures
        region.address == base == first,
        second == first + start.layout().capacity,
        region.len == 2 * start.layout().capacity,
        ({
            let one = start.at(Stage::First { base }).spec_request();
            let two = start.at(Stage::Second { base }).spec_request();
            &&& one == MapRequest::Share {
                address: first,
                len: start.layout().capacity,
                offset: start.layout().page_size,
            }
            &&& two == MapRequest::Share {
                address: second,
                len: start.layout().capacity,
                offset: start.layout().page_size,
            }
        }),
{
    broadcast use PayloadMapping::lemma_at;

}

/// A mapping that fails gives back what it had obtained. An anonymous ring gives back all of
/// it: the region that it held, and what the failing request itself obtained. A named ring
/// gives back the region that it held, unless that lies at zero and is wholly mapped, and
/// never a view that was placed elsewhere.
pub proof fn law_failed_mappings_are_given_back(mapping: PayloadMapping, answer: Result<usize, Error>)
    requires
        mapping.wf(),
        mapping.spec_step(answer) is Failed,
    ensures
        ({
            let (stray, reservation) = match mapping.spec_step(answer) {
                MapStep::Failed { stray, reservation, error } => (stray, reservation),
                _ => (None, None),
            };
            let obtained = match (answer, mapping.spec_request()) {
                (Ok(address), MapRequest::Reserve { len }) => Some(Region { address, len }),
                (Ok(address), MapRequest::Share { len, .. }) => Some(Region { address, len }),
                _ => None,
            };
            if mapping.sharing() == Sharing::Named {
                &&& stray is None
                &&& reservation == mapping.held() || {
                    &&& reservation is None
                    &&& mapping.held()->0.address == 0
                    &&& mapping.stage() is Second
                    &&& answer is Ok
                }
            } else if mapping.stage() == Stage::Reserving {
                stray is None && reservation == obtained
            } else {
                stray == obtained && reservation == mapping.held()
            }
        }),
{
}

/// A payload is mapped wherever the system does what it is asked to: it is asked for a region of
/// twice the capacity anywhere, then for the payload's bytes at each half of it, and the region is
/// then mapped. A region at zero is refused, which an anonymous ring does at once and a named one
/// in the end.
pub proof fn law_obeyed_requests_map_the_payload(start: PayloadMapping, base: usize)
    requires
        start.stage() == Stage::Reserving,
        start.wf(),
        base + 2 * start.layout().capacity <= usize::MAX,
    ensures
        ({
            let capacity = start.layout().capacity;
            let page = start.layout().page_size;
            let reserved = start.spec_step(Ok(base));
            let halfway = reserved->Continue_0.spec_step(Ok(base));
            let ended = halfway->Continue_0.spec_step(Ok((base + capacity) as usize));
            &&& start.spec_request() matches MapRequest::Reserve { len } && len == 2 * capacity
            &&& base != 0 || start.sharing() == Sharing::Named ==> {
                &&& reserved is Continue
                &&& reserved->Continue_0.spec_request() == MapRequest::Share {
                    address: base,
                    len: capacity,
                    offset: page,
                }
                &&& halfway is Continue
                &&& halfway->Continue_0.spec_request() matches MapRequest::Share {
                    address,
                    len,
                    offset,
                } && address == base + capacity && len == capacity && offset == page
            }
            &&& base != 0 ==> (ended matches MapStep::Mapped(region) && region.address == base
                && region.len == 2 * capacity)
            &&& base == 0 && start.sharing() == Sharing::Anonymous ==> (reserved matches MapStep::Failed {
                stray,
                reservation,
                error,
            } && {
                &&& stray is None
                &&& reservation matches Some(region) && region.address == 0 && region.len == 2
                    * capacity
                &&& error == Error::PlatformInvariant("null mapping")
            })
            &&& base == 0 && start.sharing() == Sharing::Named ==> (ended matches MapStep::Failed {
                stray,
                reservation,
                error,
            } && {
                &&& stray is None
                &&& reservation is None
                &&& error == Error::PlatformInvariant("null payload mapping")
            })
        }),
{
    broadcast use PayloadMapping::lemma_at;

}

/// A step fails with the system's own error where the system refused the request, and as a broken
/// guarantee where it placed a view elsewhere than it was asked to.
pub proof fn law_failed_steps_say_why(mapping: PayloadMapping, failure: Error, elsewhere: usize)
    requires
        mapping.wf(),
    ensures
        mapping.spec_step(Err(failure)) matches MapStep::Failed { stray, reservation, error } && {
            &&& error == failure
            &&& stray is None
            &&& reservation == mapping.held()
        },
        mapping.spec_request() matches MapRequest::Share { address, .. } ==> (elsewhere != address
            ==> (mapping.spec_step(Ok(elsewhere)) matches MapStep::Failed { error, .. } && error
            == Error::PlatformInvariant("MAP_FIXED returned another address"))),
        mapping.stage() == Stage::Reserving ==> mapping.held() is None,
        mapping.stage() matches Stage::First { base } ==> mapping.held() matches Some(region)
            && region.address == base && region.len == 2 * mapping.layout().capacity,
        mapping.stage() matches Stage::Second { base } ==> mapping.held() matches Some(region)
            && region.address == base && region.len == 2 * mapping.layout().capacity,
{
}

} // verus!
