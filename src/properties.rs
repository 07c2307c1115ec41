//! The fields of a remote player: for each, its name, its interface, the shape
//! it has on the bus and the type it is read as. Whether a field can be
//! written is a matter of types: a writable field implements
//! [`WritableProperty`], one that can be written when the player can be
//! controlled implements [`ControlWritableProperty`], and a read-only field
//! implements neither.

use vstd::prelude::*;

use crate::enums::{Interface, Loop, Playback, loop_name, loop_of_lower, lower_of, playback_of_lower};
use crate::error::Error;
use crate::wire::{Fixed, Wire, WireType, WireValue};

verus! {

/// A field of a remote player.
pub trait Property {
    /// The type that the field's value on the bus decodes into.
    type ParseAs: WireType;

    /// The type that the field is read as.
    type Output: DeepView;

    spec fn name_spec(&self) -> Seq<char>;

    spec fn interface_spec(&self) -> Interface;

    /// What a decoded value is read as.
    spec fn output_spec(
        &self,
        v: <Self::ParseAs as DeepView>::V,
    ) -> <Self::Output as DeepView>::V;

    /// The name of the field on the bus.
    fn name(&self) -> (r: &'static str)
        ensures
            r@ == self.name_spec(),
    ;

    /// The interface that the field is on.
    fn interface(&self) -> (r: Interface)
        ensures
            r == self.interface_spec(),
    ;

    /// Reads a decoded value as `output_spec` states.
    fn into_output(&self, value: Self::ParseAs) -> (r: Self::Output)
        ensures
            r.deep_view() == self.output_spec(value.deep_view()),
    ;
}

/// A field that can be written.
pub trait WritableProperty: Property {
    /// The decoded form in which a value is written.
    spec fn input_spec(
        &self,
        v: <Self::Output as DeepView>::V,
    ) -> <Self::ParseAs as DeepView>::V;

    /// Turns a value into the form in which it is written, as `input_spec` states.
    fn from_output(&self, value: Self::Output) -> (r: Self::ParseAs)
        ensures
            r.deep_view() == self.input_spec(value.deep_view()),
    ;

    /// A value written reads back as itself.
    proof fn lemma_input_output(&self, v: <Self::Output as DeepView>::V)
        ensures
            self.output_spec(self.input_spec(v)) == v,
    ;
}

/// A field that can be written only when the player can be controlled (see
/// [`CanControl`]). Checking that is the caller's part: nothing here does.
pub trait ControlWritableProperty: Property {
    /// The decoded form in which a value is written.
    spec fn input_spec(
        &self,
        v: <Self::Output as DeepView>::V,
    ) -> <Self::ParseAs as DeepView>::V;

    /// Turns a value into the form in which it is written, as `input_spec` states.
    fn from_output(&self, value: Self::Output) -> (r: Self::ParseAs)
        ensures
            r.deep_view() == self.input_spec(value.deep_view()),
    ;
}

/// A field that needs control and whose written form is read back, by the
/// library's own rules alone, as the value written.
pub trait ControlReadsBack: ControlWritableProperty {
    /// A value written reads back as itself.
    proof fn lemma_input_output(&self, v: <Self::Output as DeepView>::V)
        ensures
            self.output_spec(self.input_spec(v)) == v,
    ;
}

/// What a field reads as from the value `w` of the bus; `None` where `w` does
/// not have the field's shape.
pub open spec fn parse_spec<P: Property>(p: &P, w: Wire) -> Option<<P::Output as DeepView>::V> {
    match <P::ParseAs as WireType>::decode(w) {
        Some(v) => Some(p.output_spec(v)),
        None => None,
    }
}

/// Reads the value `raw` of the bus as field `p`; a value of another shape is
/// a parse error.
pub fn parse<P: Property>(p: &P, raw: WireValue) -> (r: Result<P::Output, Error>)
    ensures
        match parse_spec(p, raw@) {
            Some(v) => r is Ok && r->Ok_0.deep_view() == v,
            None => r == Err::<P::Output, Error>(Error::Parse),
        },
{
    match <P::ParseAs as WireType>::from_wire(raw) {
        Ok(v) => Ok(p.into_output(v)),
        Err(e) => Err(e),
    }
}

/// The value of the bus that writes `v` to the writable field `p`.
pub open spec fn serialize_spec<P: WritableProperty>(p: &P, v: <P::Output as DeepView>::V) -> Wire {
    <P::ParseAs as WireType>::encode(p.input_spec(v))
}

/// The value of the bus that writes `v` to a field that needs control.
pub open spec fn serialize_controlled_spec<P: ControlWritableProperty>(
    p: &P,
    v: <P::Output as DeepView>::V,
) -> Wire {
    <P::ParseAs as WireType>::encode(p.input_spec(v))
}

/// Encodes `value` for the writable field `p`.
pub fn serialize<P: WritableProperty>(p: &P, value: P::Output) -> (r: WireValue)
    ensures
        r@ == serialize_spec(p, value.deep_view()),
{
    p.from_output(value).to_wire()
}

/// Encodes `value` for the field `p`, which needs control.
pub fn serialize_controlled<P: ControlWritableProperty>(p: &P, value: P::Output) -> (r: WireValue)
    ensures
        r@ == serialize_controlled_spec(p, value.deep_view()),
{
    p.from_output(value).to_wire()
}

/// Round trip: every value written to a writable field reads back as itself.
pub proof fn lemma_round_trip<P: WritableProperty>(p: &P, v: <P::Output as DeepView>::V)
    ensures
        parse_spec(p, serialize_spec(p, v)) == Some(v),
{
    <P::ParseAs as WireType>::lemma_decode_encode(p.input_spec(v));
    p.lemma_input_output(v);
}

/// Round trip: every value written to a field that needs control, and whose
/// written form the library reads by its own rules, reads back as itself.
pub proof fn lemma_round_trip_controlled<P: ControlReadsBack>(
    p: &P,
    v: <P::Output as DeepView>::V,
)
    ensures
        parse_spec(p, serialize_controlled_spec(p, v)) == Some(v),
{
    <P::ParseAs as WireType>::lemma_decode_encode(p.input_spec(v));
    p.lemma_input_output(v);
}

pub const CANQUIT: CanQuit = CanQuit;

/// If false, calling Quit has no effect; if true, the player will attempt to quit
/// (it may still be kept from quitting, by the user for example).
#[derive(Debug, Clone, Copy)]
pub struct CanQuit;

impl Property for CanQuit {
    type ParseAs = bool;

    type Output = bool;

    open spec fn name_spec(&self) -> Seq<char> {
        "CanQuit"@
    }

    open spec fn interface_spec(&self) -> Interface {
        Interface::Base
    }

    open spec fn output_spec(&self, v: bool) -> bool {
        v
    }

    fn name(&self) -> (r: &'static str) {
        "CanQuit"
    }

    fn interface(&self) -> (r: Interface) {
        Interface::Base
    }

    fn into_output(&self, value: bool) -> (r: bool) {
        value
    }
}

pub const CANCONTROL: CanControl = CanControl;

/// Whether some of the player's fields can be written: those that implement
/// [`ControlWritableProperty`]. It describes the player's implementation, not its
/// current state, so it does not change while the player is registered.
#[derive(Debug, Clone, Copy)]
pub struct CanControl;

impl Property for CanControl {
    type ParseAs = bool;

    type Output = bool;

    open spec fn name_spec(&self) -> Seq<char> {
        "CanControl"@
    }

    open spec fn interface_spec(&self) -> Interface {
        Interface::Player
    }

    open spec fn output_spec(&self, v: bool) -> bool {
        v
    }

    fn name(&self) -> (r: &'static str) {
        "CanControl"
    }

    fn interface(&self) -> (r: Interface) {
        Interface::Player
    }

    fn into_output(&self, value: bool) -> (r: bool) {
        value
    }
}

pub const FULLSCREEN: Fullscreen = Fullscreen;

/// Whether the player occupies the whole screen.
#[derive(Debug, Clone, Copy)]
pub struct Fullscreen;

impl Property for Fullscreen {
    type ParseAs = bool;

    type Output = bool;

    open spec fn name_spec(&self) -> Seq<char> {
        "Fullscreen"@
    }

    open spec fn interface_spec(&self) -> Interface {
        Interface::Base
    }

    open spec fn output_spec(&self, v: bool) -> bool {
        v
    }

    fn name(&self) -> (r: &'static str) {
        "Fullscreen"
    }

    fn interface(&self) -> (r: Interface) {
        Interface::Base
    }

    fn into_output(&self, value: bool) -> (r: bool) {
        value
    }
}

impl WritableProperty for Fullscreen {
    open spec fn input_spec(&self, v: bool) -> bool {
        v
    }

    fn from_output(&self, value: bool) -> (r: bool) {
        value
    }

    proof fn lemma_input_output(&self, v: bool) {
    }
}

pub const CANSETFULLSCREEN: CanSetFullscreen = CanSetFullscreen;

/// If false, writing [`Fullscreen`] has no effect.
#[derive(Debug, Clone, Copy)]
pub struct CanSetFullscreen;

impl Property for CanSetFullscreen {
    type ParseAs = bool;

    type Output = bool;

    open spec fn name_spec(&self) -> Seq<char> {
        "CanSetFullscreen"@
    }

    open spec fn interface_spec(&self) -> Interface {
        Interface::Base
    }

    open spec fn output_spec(&self, v: bool) -> bool {
        v
    }

    fn name(&self) -> (r: &'static str) {
        "CanSetFullscreen"
    }

    fn interface(&self) -> (r: Interface) {
        Interface::Base
    }

    fn into_output(&self, value: bool) -> (r: bool) {
        value
    }
}

pub const CANRAISE: CanRaise = CanRaise;

/// Whether the player can be brought to the front of the user interface.
#[derive(Debug, Clone, Copy)]
pub struct CanRaise;

impl Property for CanRaise {
    type ParseAs = bool;

    type Output = bool;

    open spec fn name_spec(&self) -> Seq<char> {
        "CanRaise"@
    }

    open spec fn interface_spec(&self) -> Interface {
        Interface::Base
    }

    open spec fn output_spec(&self, v: bool) -> bool {
        v
    }

    fn name(&self) -> (r: &'static str) {
        "CanRaise"
    }

    fn interface(&self) -> (r: Interface) {
        Interface::Base
    }

    fn into_output(&self, value: bool) -> (r: bool) {
        value
    }
}

pub const HASTRACKLIST: HasTrackList = HasTrackList;

/// Whether the player has a track list.
#[derive(Debug, Clone, Copy)]
pub struct HasTrackList;

impl Property for HasTrackList {
    type ParseAs = bool;

    type Output = bool;

    open spec fn name_spec(&self) -> Seq<char> {
        "HasTrackList"@
    }

    open spec fn interface_spec(&self) -> Interface {
        Interface::Base
    }

    open spec fn output_spec(&self, v: bool) -> bool {
        v
    }

    fn name(&self) -> (r: &'static str) {
        "HasTrackList"
    }

    fn interface(&self) -> (r: Interface) {
        Interface::Base
    }

    fn into_output(&self, value: bool) -> (r: bool) {
        value
    }
}

pub const IDENTITY: Identity = Identity;

/// The display name of the player, for example "VLC media player".
#[derive(Debug, Clone, Copy)]
pub struct Identity;

impl Property for Identity {
    type ParseAs = String;

    type Output = String;

    open spec fn name_spec(&self) -> Seq<char> {
        "Identity"@
    }

    open spec fn interface_spec(&self) -> Interface {
        Interface::Base
    }

    open spec fn output_spec(&self, v: Seq<char>) -> Seq<char> {
        v
    }

    fn name(&self) -> (r: &'static str) {
        "Identity"
    }

    fn interface(&self) -> (r: Interface) {
        Interface::Base
    }

    fn into_output(&self, value: String) -> (r: String) {
        value
    }
}

pub const DESKTOPENTRY: DesktopEntry = DesktopEntry;

/// The desktop entry of the player, for example "vlc".
#[derive(Debug, Clone, Copy)]
pub struct DesktopEntry;

impl Property for DesktopEntry {
    type ParseAs = String;

    type Output = String;

    open spec fn name_spec(&self) -> Seq<char> {
        "DesktopEntry"@
    }

    open spec fn interface_spec(&self) -> Interface {
        Interface::Base
    }

    open spec fn output_spec(&self, v: Seq<char>) -> Seq<char> {
        v
    }

    fn name(&self) -> (r: &'static str) {
        "DesktopEntry"
    }

    fn interface(&self) -> (r: Interface) {
        Interface::Base
    }

    fn into_output(&self, value: String) -> (r: String) {
        value
    }
}

pub const SUPPORTEDURIS: SupportedURIs = SupportedURIs;

/// The URI schemes that the player supports, for example "file" or "http".
#[derive(Debug, Clone, Copy)]
pub struct SupportedURIs;

impl Property for SupportedURIs {
    type ParseAs = Vec<String>;

    type Output = Vec<String>;

    open spec fn name_spec(&self) -> Seq<char> {
        "SupportedUriSchemes"@
    }

    open spec fn interface_spec(&self) -> Interface {
        Interface::Base
    }

    open spec fn output_spec(&self, v: Seq<Seq<char>>) -> Seq<Seq<char>> {
        v
    }

    fn name(&self) -> (r: &'static str) {
        "SupportedUriSchemes"
    }

    fn interface(&self) -> (r: Interface) {
        Interface::Base
    }

    fn into_output(&self, value: Vec<String>) -> (r: Vec<String>) {
        value
    }
}

pub const SUPPORTEDMIMES: SupportedMIMEs = SupportedMIMEs;

/// The MIME types that the player supports, for example "audio/mpeg".
#[derive(Debug, Clone, Copy)]
pub struct SupportedMIMEs;

impl Property for SupportedMIMEs {
    type ParseAs = Vec<String>;

    type Output = Vec<String>;

    open spec fn name_spec(&self) -> Seq<char> {
        "SupportedMimeTypes"@
    }

    open spec fn interface_spec(&self) -> Interface {
        Interface::Base
    }

    open spec fn output_spec(&self, v: Seq<Seq<char>>) -> Seq<Seq<char>> {
        v
    }

    fn name(&self) -> (r: &'static str) {
        "SupportedMimeTypes"
    }

    fn interface(&self) -> (r: Interface) {
        Interface::Base
    }

    fn into_output(&self, value: Vec<String>) -> (r: Vec<String>) {
        value
    }
}

pub const PLAYBACKSTATUS: PlaybackStatus = PlaybackStatus;

/// The current playback state: see [`Playback`].
#[derive(Debug, Clone, Copy)]
pub struct PlaybackStatus;

impl Property for PlaybackStatus {
    type ParseAs = String;

    type Output = Playback;

    open spec fn name_spec(&self) -> Seq<char> {
        "PlaybackStatus"@
    }

    open spec fn interface_spec(&self) -> Interface {
        Interface::Player
    }

    open spec fn output_spec(&self, v: Seq<char>) -> Playback {
        playback_of_lower(lower_of(v))
    }

    fn name(&self) -> (r: &'static str) {
        "PlaybackStatus"
    }

    fn interface(&self) -> (r: Interface) {
        Interface::Player
    }

    fn into_output(&self, value: String) -> (r: Playback) {
        Playback::from_text(value.as_str())
    }
}

pub const LOOPSTATUS: LoopStatus = LoopStatus;

/// The current loop state: see [`Loop`].
#[derive(Debug, Clone, Copy)]
pub struct LoopStatus;

impl Property for LoopStatus {
    type ParseAs = String;

    type Output = Loop;

    open spec fn name_spec(&self) -> Seq<char> {
        "LoopStatus"@
    }

    open spec fn interface_spec(&self) -> Interface {
        Interface::Player
    }

    open spec fn output_spec(&self, v: Seq<char>) -> Loop {
        loop_of_lower(lower_of(v))
    }

    fn name(&self) -> (r: &'static str) {
        "LoopStatus"
    }

    fn interface(&self) -> (r: Interface) {
        Interface::Player
    }

    fn into_output(&self, value: String) -> (r: Loop) {
        Loop::from_text(value.as_str())
    }
}

impl ControlWritableProperty for LoopStatus {
    open spec fn input_spec(&self, v: Loop) -> Seq<char> {
        loop_name(v)
    }

    fn from_output(&self, value: Loop) -> (r: String) {
        value.to_string()
    }
}

/// The all-lower-case spelling of the name under which a loop state travels.
pub open spec fn loop_lower_name(l: Loop) -> Seq<char> {
    match l {
        Loop::Off => seq!['n', 'o', 'n', 'e'],
        Loop::Track => seq!['t', 'r', 'a', 'c', 'k'],
        Loop::Playlist => seq!['p', 'l', 'a', 'y', 'l', 'i', 's', 't'],
    }
}

/// A loop state written to [`LoopStatus`] reads back as the state that its
/// written name's lower case names; and the all-lower-case spelling of each
/// name reads back as its own state.
pub proof fn lemma_loop_status_reads_lower_names(l: Loop)
    ensures
        parse_spec(&LOOPSTATUS, serialize_controlled_spec(&LOOPSTATUS, l)) == Some(
            loop_of_lower(lower_of(loop_name(l))),
        ),
        loop_of_lower(loop_lower_name(l)) == l,
{
}

pub const RATE: Rate = Rate;

/// The current playback rate, in millionths: normal speed is one million. It is
/// never zero; a paused player reports its state through [`PlaybackStatus`].
#[derive(Debug, Clone, Copy)]
pub struct Rate;

impl Property for Rate {
    type ParseAs = Fixed;

    type Output = i64;

    open spec fn name_spec(&self) -> Seq<char> {
        "Rate"@
    }

    open spec fn interface_spec(&self) -> Interface {
        Interface::Player
    }

    open spec fn output_spec(&self, v: Fixed) -> i64 {
        v.millionths
    }

    fn name(&self) -> (r: &'static str) {
        "Rate"
    }

    fn interface(&self) -> (r: Interface) {
        Interface::Player
    }

    fn into_output(&self, value: Fixed) -> (r: i64) {
        value.millionths
    }
}

impl ControlWritableProperty for Rate {
    open spec fn input_spec(&self, v: i64) -> Fixed {
        Fixed { millionths: v }
    }

    fn from_output(&self, value: i64) -> (r: Fixed) {
        Fixed { millionths: value }
    }
}

impl ControlReadsBack for Rate {
    proof fn lemma_input_output(&self, v: i64) {
    }
}

pub const MINIMUMRATE: MinimumRate = MinimumRate;

/// The least value that [`Rate`] can take, in millionths.
#[derive(Debug, Clone, Copy)]
pub struct MinimumRate;

impl Property for MinimumRate {
    type ParseAs = Fixed;

    type Output = i64;

    open spec fn name_spec(&self) -> Seq<char> {
        "MinimumRate"@
    }

    open spec fn interface_spec(&self) -> Interface {
        Interface::Player
    }

    open spec fn output_spec(&self, v: Fixed) -> i64 {
        v.millionths
    }

    fn name(&self) -> (r: &'static str) {
        "MinimumRate"
    }

    fn interface(&self) -> (r: Interface) {
        Interface::Player
    }

    fn into_output(&self, value: Fixed) -> (r: i64) {
        value.millionths
    }
}

pub const MAXIMUMRATE: MaximumRate = MaximumRate;

/// The greatest value that [`Rate`] can take, in millionths.
#[derive(Debug, Clone, Copy)]
pub struct MaximumRate;

impl Property for MaximumRate {
    type ParseAs = Fixed;

    type Output = i64;

    open spec fn name_spec(&self) -> Seq<char> {
        "MaximumRate"@
    }

    open spec fn interface_spec(&self) -> Interface {
        Interface::Player
    }

    open spec fn output_spec(&self, v: Fixed) -> i64 {
        v.millionths
    }

    fn name(&self) -> (r: &'static str) {
        "MaximumRate"
    }

    fn interface(&self) -> (r: Interface) {
        Interface::Player
    }

    fn into_output(&self, value: Fixed) -> (r: i64) {
        value.millionths
    }
}

pub const POSITION: Position = Position;

/// The current offset into the track, in microseconds. The bus carries it as a
/// signed count, which is read as unsigned.
#[derive(Debug, Clone, Copy)]
pub struct Position;

impl Property for Position {
    type ParseAs = i64;

    type Output = u64;

    open spec fn name_spec(&self) -> Seq<char> {
        "Position"@
    }

    open spec fn interface_spec(&self) -> Interface {
        Interface::Player
    }

    open spec fn output_spec(&self, v: i64) -> u64 {
        v as u64
    }

    fn name(&self) -> (r: &'static str) {
        "Position"
    }

    fn interface(&self) -> (r: Interface) {
        Interface::Player
    }

    fn into_output(&self, value: i64) -> (r: u64) {
        value as u64
    }
}

pub const SHUFFLE: Shuffle = Shuffle;

/// Whether the playlist is played in an order other than its own.
#[derive(Debug, Clone, Copy)]
pub struct Shuffle;

impl Property for Shuffle {
    type ParseAs = bool;

    type Output = bool;

    open spec fn name_spec(&self) -> Seq<char> {
        "Shuffle"@
    }

    open spec fn interface_spec(&self) -> Interface {
        Interface::Player
    }

    open spec fn output_spec(&self, v: bool) -> bool {
        v
    }

    fn name(&self) -> (r: &'static str) {
        "Shuffle"
    }

    fn interface(&self) -> (r: Interface) {
        Interface::Player
    }

    fn into_output(&self, value: bool) -> (r: bool) {
        value
    }
}

impl ControlWritableProperty for Shuffle {
    open spec fn input_spec(&self, v: bool) -> bool {
        v
    }

    fn from_output(&self, value: bool) -> (r: bool) {
        value
    }
}

impl ControlReadsBack for Shuffle {
    proof fn lemma_input_output(&self, v: bool) {
    }
}

pub const VOLUME: Volume = Volume;

/// The volume, in millionths: one million is full volume.
#[derive(Debug, Clone, Copy)]
pub struct Volume;

impl Property for Volume {
    type ParseAs = Fixed;

    type Output = i64;

    open spec fn name_spec(&self) -> Seq<char> {
        "Volume"@
    }

    open spec fn interface_spec(&self) -> Interface {
        Interface::Player
    }

    open spec fn output_spec(&self, v: Fixed) -> i64 {
        v.millionths
    }

    fn name(&self) -> (r: &'static str) {
        "Volume"
    }

    fn interface(&self) -> (r: Interface) {
        Interface::Player
    }

    fn into_output(&self, value: Fixed) -> (r: i64) {
        value.millionths
    }
}

impl ControlWritableProperty for Volume {
    open spec fn input_spec(&self, v: i64) -> Fixed {
        Fixed { millionths: v }
    }

    fn from_output(&self, value: i64) -> (r: Fixed) {
        Fixed { millionths: value }
    }
}

impl ControlReadsBack for Volume {
    proof fn lemma_input_output(&self, v: i64) {
    }
}

pub const CANGONEXT: CanGoNext = CanGoNext;

/// Whether going to the next track is expected to change the current track.
#[derive(Debug, Clone, Copy)]
pub struct CanGoNext;

impl Property for CanGoNext {
    type ParseAs = bool;

    type Output = bool;

    open spec fn name_spec(&self) -> Seq<char> {
        "CanGoNext"@
    }

    open spec fn interface_spec(&self) -> Interface {
        Interface::Player
    }

    open spec fn output_spec(&self, v: bool) -> bool {
        v
    }

    fn name(&self) -> (r: &'static str) {
        "CanGoNext"
    }

    fn interface(&self) -> (r: Interface) {
        Interface::Player
    }

    fn into_output(&self, value: bool) -> (r: bool) {
        value
    }
}

pub const CANGOPREVIOUS: CanGoPrevious = CanGoPrevious;

/// Whether going to the previous track is expected to change the current track.
#[derive(Debug, Clone, Copy)]
pub struct CanGoPrevious;

impl Property for CanGoPrevious {
    type ParseAs = bool;

    type Output = bool;

    open spec fn name_spec(&self) -> Seq<char> {
        "CanGoPrevious"@
    }

    open spec fn interface_spec(&self) -> Interface {
        Interface::Player
    }

    open spec fn output_spec(&self, v: bool) -> bool {
        v
    }

    fn name(&self) -> (r: &'static str) {
        "CanGoPrevious"
    }

    fn interface(&self) -> (r: Interface) {
        Interface::Player
    }

    fn into_output(&self, value: bool) -> (r: bool) {
        value
    }
}

pub const CANPLAY: CanPlay = CanPlay;

/// Whether playback can be started.
#[derive(Debug, Clone, Copy)]
pub struct CanPlay;

impl Property for CanPlay {
    type ParseAs = bool;

    type Output = bool;

    open spec fn name_spec(&self) -> Seq<char> {
        "CanPlay"@
    }

    open spec fn interface_spec(&self) -> Interface {
        Interface::Player
    }

    open spec fn output_spec(&self, v: bool) -> bool {
        v
    }

    fn name(&self) -> (r: &'static str) {
        "CanPlay"
    }

    fn interface(&self) -> (r: Interface) {
        Interface::Player
    }

    fn into_output(&self, value: bool) -> (r: bool) {
        value
    }
}

pub const CANPAUSE: CanPause = CanPause;

/// Whether playback can be paused.
#[derive(Debug, Clone, Copy)]
pub struct CanPause;

impl Property for CanPause {
    type ParseAs = bool;

    type Output = bool;

    open spec fn name_spec(&self) -> Seq<char> {
        "CanPause"@
    }

    open spec fn interface_spec(&self) -> Interface {
        Interface::Player
    }

    open spec fn output_spec(&self, v: bool) -> bool {
        v
    }

    fn name(&self) -> (r: &'static str) {
        "CanPause"
    }

    fn interface(&self) -> (r: Interface) {
        Interface::Player
    }

    fn into_output(&self, value: bool) -> (r: bool) {
        value
    }
}

pub const CANSEEK: CanSeek = CanSeek;

/// Whether the playback position can be changed.
#[derive(Debug, Clone, Copy)]
pub struct CanSeek;

impl Property for CanSeek {
    type ParseAs = bool;

    type Output = bool;

    open spec fn name_spec(&self) -> Seq<char> {
        "CanSeek"@
    }

    open spec fn interface_spec(&self) -> Interface {
        Interface::Player
    }

    open spec fn output_spec(&self, v: bool) -> bool {
        v
    }

    fn name(&self) -> (r: &'static str) {
        "CanSeek"
    }

    fn interface(&self) -> (r: Interface) {
        Interface::Player
    }

    fn into_output(&self, value: bool) -> (r: bool) {
        value
    }
}

} // verus!
