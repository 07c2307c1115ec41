//! The events that a remote player sends, each with the shape it has on the
//! bus and the type it is read as.

use vstd::prelude::*;

use crate::enums::Interface;
use crate::error::Error;
use crate::wire::{Wire, WireType, WireValue};

verus! {

/// An event of a remote player. Events are never written.
pub trait Signal {
    /// The type that the event's value on the bus decodes into.
    type ParseAs: WireType;

    /// The type that the event is read as.
    type Output: DeepView;

    spec fn name_spec(&self) -> Seq<char>;

    spec fn interface_spec(&self) -> Interface;

    /// What a decoded value is read as.
    spec fn output_spec(
        &self,
        v: <Self::ParseAs as DeepView>::V,
    ) -> <Self::Output as DeepView>::V;

    /// The name of the event on the bus.
    fn name(&self) -> (r: &'static str)
        ensures
            r@ == self.name_spec(),
    ;

    /// The interface that the event comes from.
    fn interface(&self) -> (r: Interface)
        ensures
            r == self.interface_spec(),
    ;

    /// Reads a decoded value as `output_spec` states.
    fn into_output(&self, value: Self::ParseAs) -> (r: Self::Output)
        ensures
            r.deep_view() == self.output_spec(value.deep_view()),
    ;
}

/// What an event reads as from the value `w` of the bus; `None` where `w`
/// does not have the event's shape.
pub open spec fn parse_signal_spec<S: Signal>(s: &S, w: Wire) -> Option<<S::Output as DeepView>::V> {
    match <S::ParseAs as WireType>::decode(w) {
        Some(v) => Some(s.output_spec(v)),
        None => None,
    }
}

/// Reads the value `raw` of the bus as event `s`; a value of another shape is
/// a parse error.
pub fn parse_signal<S: Signal>(s: &S, raw: WireValue) -> (r: Result<S::Output, Error>)
    ensures
        match parse_signal_spec(s, raw@) {
            Some(v) => r is Ok && r->Ok_0.deep_view() == v,
            None => r == Err::<S::Output, Error>(Error::Parse),
        },
{
    match <S::ParseAs as WireType>::from_wire(raw) {
        Ok(v) => Ok(s.into_output(v)),
        Err(e) => Err(e),
    }
}

pub const SEEKED: Seeked = Seeked;

/// The player's position changed in a way that its playback state does not
/// account for; the value is the new position in microseconds. The bus
/// carries it as a signed count, which is read as unsigned.
#[derive(Debug, Clone, Copy)]
pub struct Seeked;

impl Signal for Seeked {
    type ParseAs = i64;

    type Output = u64;

    open spec fn name_spec(&self) -> Seq<char> {
        "Seeked"@
    }

    open spec fn interface_spec(&self) -> Interface {
        Interface::Player
    }

    open spec fn output_spec(&self, v: i64) -> u64 {
        v as u64
    }

    fn name(&self) -> (r: &'static str) {
        "Seeked"
    }

    fn interface(&self) -> (r: Interface) {
        Interface::Player
    }

    fn into_output(&self, value: i64) -> (r: u64) {
        value as u64
    }
}

} // verus!
