//! The band that holds the strip in the host's window: what it tells the
//! host about its size, and which of the browser's events it listens to.

use vstd::prelude::*;

use crate::tabs::geometry::Point;

verus! {

/// In the mask of a band's description: the smallest size is asked for.
pub const DBIM_MINSIZE: u32 = 0x0001;

/// In the mask: the largest size is asked for.
pub const DBIM_MAXSIZE: u32 = 0x0002;

/// In the mask: the step by which the band grows is asked for.
pub const DBIM_INTEGRAL: u32 = 0x0004;

/// In the mask: the size that the band would like is asked for.
pub const DBIM_ACTUAL: u32 = 0x0008;

/// In the mask: the title is asked for.
pub const DBIM_TITLE: u32 = 0x0010;

/// In the mask: the mode flags are asked for.
pub const DBIM_MODEFLAGS: u32 = 0x0020;

/// In the mask: the background colour is asked for.
pub const DBIM_BKCOLOR: u32 = 0x0040;

/// Mode flag: a band like any other.
pub const DBIMF_NORMAL: u32 = 0x0000;

/// Mode flag: the band has a background colour of its own.
pub const DBIMF_BKCOLOR: u32 = 0x0040;

/// Mode flag: the band has no margins.
pub const DBIMF_NOMARGINS: u32 = 0x2000;

/// The narrowest the band can be.
pub const MIN_WIDTH: i32 = 200;

/// The lowest the band can be.
pub const MIN_HEIGHT: i32 = 25;

/// In a size: no limit.
pub const UNLIMITED: i32 = -1;

/// The part of a band's description that the band fills in.
#[derive(Clone, Copy, Debug, PartialEq, Eq, Structural)]
pub struct DeskBandInfo {
    /// Which parts the host asks for. What is left of it afterwards tells
    /// the host which parts were filled in.
    pub mask: u32,
    pub min_size: Point,
    pub max_size: Point,
    pub integral: Point,
    pub mode_flags: u32,
}

/// The description that the band gives when the host hands it `info`. The
/// band is at least `MIN_WIDTH` by `MIN_HEIGHT`; it may be as high as it
/// likes, and grow by any step; it has no margins and a background colour
/// of its own; and it has neither a title nor a background colour to give,
/// which it says by taking both out of the mask. What the mask does not ask
/// for stays as it was.
pub open spec fn band_info(info: DeskBandInfo) -> DeskBandInfo {
    DeskBandInfo {
        mask: info.mask & !(DBIM_TITLE | DBIM_BKCOLOR),
        min_size: if info.mask & DBIM_MINSIZE != 0 {
            Point { x: MIN_WIDTH, y: MIN_HEIGHT }
        } else {
            info.min_size
        },
        max_size: if info.mask & DBIM_MAXSIZE != 0 {
            Point { x: info.max_size.x, y: UNLIMITED }
        } else {
            info.max_size
        },
        integral: if info.mask & DBIM_ACTUAL != 0 {
            Point { x: info.integral.x, y: UNLIMITED }
        } else {
            info.integral
        },
        mode_flags: if info.mask & DBIM_MODEFLAGS != 0 {
            DBIMF_NORMAL | DBIMF_BKCOLOR | DBIMF_NOMARGINS
        } else {
            info.mode_flags
        },
    }
}

/// Fills in the band's description.
pub fn get_band_info(info: &mut DeskBandInfo)
    ensures
        *final(info) == band_info(*old(info)),
{
    if info.mask & DBIM_MINSIZE != 0 {
        info.min_size.x = MIN_WIDTH;
        info.min_size.y = MIN_HEIGHT;
    }
    if info.mask & DBIM_MAXSIZE != 0 {
        info.max_size.y = UNLIMITED;
    }
    if info.mask & DBIM_ACTUAL != 0 {
        info.integral.y = UNLIMITED;
    }
    let asked = info.mask;
    if info.mask & DBIM_TITLE != 0 {
        info.mask &= !DBIM_TITLE;
    }
    let untitled = info.mask;
    if info.mask & DBIM_MODEFLAGS != 0 {
        info.mode_flags = DBIMF_NORMAL | DBIMF_BKCOLOR | DBIMF_NOMARGINS;
    }
    if info.mask & DBIM_BKCOLOR != 0 {
        info.mask &= !DBIM_BKCOLOR;
    }
    let left = info.mask;
    proof {
        assert(untitled == asked & !0x10u32) by (bit_vector)
            requires
                untitled == (if asked & 0x10u32 != 0 {
                    asked & !0x10u32
                } else {
                    asked
                }),
        ;
        assert(untitled & 0x20u32 == asked & 0x20u32) by (bit_vector)
            requires
                untitled == asked & !0x10u32,
        ;
        assert(left == asked & !(0x10u32 | 0x40u32)) by (bit_vector)
            requires
                untitled == asked & !0x10u32,
                left == (if untitled & 0x40u32 != 0 {
                    untitled & !0x40u32
                } else {
                    untitled
                }),
        ;
    }
}

/// What is left of the mask asks for neither title nor background colour,
/// and for everything else that was asked for before.
pub proof fn lemma_band_mask(info: DeskBandInfo, part: u32)
    requires
        part == DBIM_MINSIZE || part == DBIM_MAXSIZE || part == DBIM_INTEGRAL || part
            == DBIM_ACTUAL || part == DBIM_MODEFLAGS,
    ensures
        band_info(info).mask & DBIM_TITLE == 0,
        band_info(info).mask & DBIM_BKCOLOR == 0,
        band_info(info).mask & part == info.mask & part,
{
    let mask = info.mask;
    assert((mask & !(0x10u32 | 0x40u32)) & 0x10u32 == 0) by (bit_vector);
    assert((mask & !(0x10u32 | 0x40u32)) & 0x40u32 == 0) by (bit_vector);
    assert((mask & !(0x10u32 | 0x40u32)) & part == mask & part) by (bit_vector)
        requires
            part == 0x1u32 || part == 0x2u32 || part == 0x4u32 || part == 0x8u32 || part
                == 0x20u32,
    ;
}

/// In the flags of a call through the dispatch interface: a method is
/// called.
pub const DISPATCH_METHOD: u16 = 1;

/// The event that the browser fires when it has arrived at a place.
pub const DISPID_NAVIGATECOMPLETE2: i32 = 0xfc;

/// The event that the browser fires when it is about to open a window.
pub const DISPID_NEWWINDOW2: i32 = 0xfb;

/// The result code that says that the interface has no such member.
pub const DISP_E_MEMBERNOTFOUND: i32 = -0x7FFDFFFD;

/// An event of the browser, as far as the band is concerned.
#[derive(Clone, Copy, Debug, PartialEq, Eq, Structural)]
pub enum BrowserEvent {
    /// The browser has arrived at a place: the tab bar is told where.
    NavigateComplete,
    /// The browser is about to open a window.
    NewWindow,
    /// Any other event: nothing is done.
    Other,
}

/// Says which event a call through the dispatch interface brings. Only
/// methods can be called: any other kind of call is turned down with
/// `DISP_E_MEMBERNOTFOUND`.
pub fn invoke(dispidmember: i32, wflags: u16) -> (event: Result<BrowserEvent, i32>)
    ensures
        event == if wflags != DISPATCH_METHOD {
            Err::<BrowserEvent, i32>(DISP_E_MEMBERNOTFOUND)
        } else if dispidmember == DISPID_NAVIGATECOMPLETE2 {
            Ok::<BrowserEvent, i32>(BrowserEvent::NavigateComplete)
        } else if dispidmember == DISPID_NEWWINDOW2 {
            Ok::<BrowserEvent, i32>(BrowserEvent::NewWindow)
        } else {
            Ok::<BrowserEvent, i32>(BrowserEvent::Other)
        },
{
    if wflags != DISPATCH_METHOD {
        return Err(DISP_E_MEMBERNOTFOUND);
    }
    if dispidmember == DISPID_NAVIGATECOMPLETE2 {
        Ok(BrowserEvent::NavigateComplete)
    } else if dispidmember == DISPID_NEWWINDOW2 {
        Ok(BrowserEvent::NewWindow)
    } else {
        Ok(BrowserEvent::Other)
    }
}

} // verus!
