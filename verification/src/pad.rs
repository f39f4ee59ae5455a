//! Pad-link primitives: the model of a dynamically-requested connection
//! point and of the two operations every other component builds on —
//! releasing such a point and propagating a property change to the peer
//! currently connected on its far side.
//!
//! The engine owns the real request/release semantics; this module keeps
//! the core's own view of one such connection: either nothing is connected
//! (`None`), or a peer pad with its current properties is (`Some`).

use crate::Error;
use vstd::prelude::*;

verus! {

/// The properties the core tracks on a peer connection point of the shared
/// compositor (or of another requesting element; unused fields keep their
/// engine defaults there).
///
/// `alpha` is opacity in thousandths; `width`/`height` of `-1` mean "left to
/// the engine". `repeat` mirrors the compositor's repeat-at-end-of-stream
/// switch.
#[derive(Clone, Copy, Debug, PartialEq, Eq, Structural)]
pub struct PeerPad {
    pub zorder: u32,
    pub alpha: u32,
    pub xpos: i32,
    pub ypos: i32,
    pub width: i32,
    pub height: i32,
    pub repeat: bool,
}

impl PeerPad {
    /// The properties a freshly requested compositor pad carries: the zorder
    /// the compositor chose for it, and engine defaults for the rest.
    pub open spec fn fresh_spec(zorder: u32) -> PeerPad {
        PeerPad {
            zorder,
            alpha: 1000,
            xpos: 0,
            ypos: 0,
            width: -1i32,
            height: -1i32,
            repeat: false,
        }
    }

    /// Builds the freshly requested pad of `fresh_spec`.
    pub fn fresh(zorder: u32) -> (r: PeerPad)
        ensures
            r == PeerPad::fresh_spec(zorder),
    {
        PeerPad {
            zorder,
            alpha: 1000,
            xpos: 0,
            ypos: 0,
            width: -1,
            height: -1,
            repeat: false,
        }
    }
}

/// One named property a caller may propagate to a connected peer pad.
#[derive(Clone, Copy, Debug, PartialEq, Eq, Structural)]
pub enum PadProperty {
    Zorder(u32),
    Alpha(u32),
    Xpos(i32),
    Ypos(i32),
    Width(i32),
    Height(i32),
    Repeat(bool),
}

/// The pad after `prop` has been written to it; every other property keeps
/// its value.
pub open spec fn with_property(pad: PeerPad, prop: PadProperty) -> PeerPad {
    match prop {
        PadProperty::Zorder(z) => PeerPad { zorder: z, ..pad },
        PadProperty::Alpha(a) => PeerPad { alpha: a, ..pad },
        PadProperty::Xpos(x) => PeerPad { xpos: x, ..pad },
        PadProperty::Ypos(y) => PeerPad { ypos: y, ..pad },
        PadProperty::Width(w) => PeerPad { width: w, ..pad },
        PadProperty::Height(h) => PeerPad { height: h, ..pad },
        PadProperty::Repeat(r) => PeerPad { repeat: r, ..pad },
    }
}

/// Sets a named property on the peer connected at `link`.
///
/// Fails with `Error::Graph`, changing nothing, when nothing is connected
/// there. A property whose engine-side type does not match cannot arise
/// here: each variant of `PadProperty` carries the type its property takes.
pub fn set_peer_pad_property(link: &mut Option<PeerPad>, prop: PadProperty) -> (r: Result<
    (),
    Error,
>)
    ensures
        match *old(link) {
            Some(pad) => r is Ok && *final(link) == Some(with_property(pad, prop)),
            None => r == Err::<(), Error>(Error::Graph) && *final(link) == *old(link),
        },
{
    match link {
        Some(pad) => {
            match prop {
                PadProperty::Zorder(z) => pad.zorder = z,
                PadProperty::Alpha(a) => pad.alpha = a,
                PadProperty::Xpos(x) => pad.xpos = x,
                PadProperty::Ypos(y) => pad.ypos = y,
                PadProperty::Width(w) => pad.width = w,
                PadProperty::Height(h) => pad.height = h,
                PadProperty::Repeat(rep) => pad.repeat = rep,
            }
            Ok(())
        },
        None => Err(Error::Graph),
    }
}

/// Releases the dynamically requested connection point behind `link`: when a
/// peer is connected, its owning element takes the point back; when nothing
/// is connected, this is a no-op. Either way nothing is connected afterward.
///
/// The engine-side failure arms — a node without such a point, or a peer
/// whose owning element cannot be resolved — cannot arise on a link the core
/// itself tracks, so this always succeeds here.
pub fn release_request_pad(link: &mut Option<PeerPad>) -> (r: Result<(), Error>)
    ensures
        r is Ok,
        *final(link) is None,
{
    *link = None;
    Ok(())
}

} // verus!
