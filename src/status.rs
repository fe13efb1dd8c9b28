use vstd::prelude::*;

verus! {

/// The tri-state health of a node in one poll cycle.
#[derive(Clone, Copy, Debug, PartialEq, Eq, Structural)]
pub enum Status {
    Healthy,
    Sick,
    Dead,
}

impl Status {
    pub open spec fn spec_as_str(self) -> Seq<char> {
        match self {
            Status::Healthy => "healthy"@,
            Status::Sick => "sick"@,
            Status::Dead => "dead"@,
        }
    }

    /// The health word sent to the remote endpoint.
    pub fn as_str(&self) -> (r: &'static str)
        ensures
            r@ == self.spec_as_str(),
    {
        match self {
            Status::Healthy => "healthy",
            Status::Sick => "sick",
            Status::Dead => "dead",
        }
    }
}

} // verus!
