//! What an applet knows of its place on the panel, and how the host's events
//! change it.
//!
//! The host tells an applet its grid, size, margin and edge, and when to
//! show or hide. The applet keeps these facts in an [`AppletCore`] and owns
//! at most one surface on the screen. Each event changes the facts and may
//! ask for one change to that surface. `W` is the window system's name for a
//! surface; `R` is a request to the window system that waits until the way
//! to it is open.

use crate::applet::interface::{
    Anchor, AppletEvent, AppletRequest, Direction, Limits, Margin, Size,
};
use vstd::prelude::*;

verus! {

/// The edge length of a grid cell before the host has said otherwise.
pub const DEFAULT_GRID_SIZE: u32 = 50;

/// The exclusive zone of a surface that claims no room of its own and is not
/// moved out of the way of surfaces that do.
pub const NO_EXCLUSIVE_ZONE: i32 = -1;

/// A size in whole pixels.
#[derive(Debug, Clone, Copy, PartialEq, Eq, Structural)]
pub struct Extent {
    pub width: u32,
    pub height: u32,
}

/// The layer of the screen that a surface lives on.
#[derive(Debug, Clone, Copy, PartialEq, Eq, Structural)]
pub enum Layer {
    Background,
    Bottom,
    Top,
    Overlay,
}

/// One change to the applet's surface.
#[derive(Debug, Clone, Copy, PartialEq, Eq, Structural)]
pub enum SurfaceCommand<W> {
    /// Open a surface under the name `id`.
    Open { id: W, size: Extent, layer: Layer, anchor: Anchor, exclusive_zone: i32, margin: Margin },
    /// Pin the surface to `anchor` and give it `size`.
    Resize { id: W, anchor: Anchor, size: Extent },
    /// Give the surface this margin.
    SetMargin { id: W, margin: Margin },
    /// Close the surface.
    Close { id: W },
}

/// The facts an applet keeps about its place on the panel.
pub struct Placement<W> {
    pub margin: Margin,
    pub grid_size: u32,
    pub size: Extent,
    pub direction: Direction,
    pub visible: bool,
    pub layer: Layer,
    /// The applet's surface, while it has one.
    pub surface: Option<W>,
}

/// The placement after an event, and the change to the surface that the
/// event asks for. `fresh` is a name that no surface has yet; it is used
/// where the event opens one.
pub open spec fn react<W>(before: Placement<W>, event: AppletEvent, fresh: W) -> (
    Placement<W>,
    Option<SurfaceCommand<W>>,
) {
    match event {
        AppletEvent::GridSize(cell) => (Placement { grid_size: cell, ..before }, None),
        AppletEvent::Size(width, height) => {
            let size = Extent { width, height };
            (
                Placement { size, ..before },
                match before.surface {
                    Some(id) => Some(
                        SurfaceCommand::Resize {
                            id,
                            anchor: before.direction.applet_anchor(),
                            size,
                        },
                    ),
                    None => None,
                },
            )
        },
        AppletEvent::Margin { top, right, bottom, left } => {
            let margin = Margin { top, right, bottom, left };
            (
                Placement { margin, ..before },
                match before.surface {
                    Some(id) => Some(SurfaceCommand::SetMargin { id, margin }),
                    None => None,
                },
            )
        },
        AppletEvent::Direction(direction) => (
            Placement { direction, ..before },
            match before.surface {
                Some(id) => Some(
                    SurfaceCommand::Resize {
                        id,
                        anchor: direction.applet_anchor(),
                        size: before.size,
                    },
                ),
                None => None,
            },
        ),
        AppletEvent::Show => match before.surface {
            Some(_) => (Placement { visible: true, ..before }, None),
            None => (
                Placement { visible: true, surface: Some(fresh), ..before },
                Some(
                    SurfaceCommand::Open {
                        id: fresh,
                        size: before.size,
                        layer: before.layer,
                        anchor: before.direction.applet_anchor(),
                        exclusive_zone: NO_EXCLUSIVE_ZONE,
                        margin: before.margin,
                    },
                ),
            ),
        },
        AppletEvent::Hide => (
            Placement { visible: false, surface: None, ..before },
            match before.surface {
                Some(id) => Some(SurfaceCommand::Close { id }),
                None => None,
            },
        ),
    }
}

/// The placement of an applet that has heard nothing from the host yet: at
/// the bottom edge, one default cell large, hidden and without a surface.
pub open spec fn initial<W>() -> Placement<W> {
    Placement {
        margin: Margin { top: 0, right: 0, bottom: 0, left: 0 },
        grid_size: DEFAULT_GRID_SIZE,
        size: Extent { width: DEFAULT_GRID_SIZE, height: DEFAULT_GRID_SIZE },
        direction: Direction::Bottom,
        visible: false,
        layer: Layer::Top,
        surface: None,
    }
}

/// The placement after a sequence of events. `names` gives, for each event,
/// the fresh name at hand.
pub open spec fn after<W>(start: Placement<W>, events: Seq<AppletEvent>, names: Seq<W>) -> Placement<
    W,
>
    recommends
        names.len() == events.len(),
    decreases events.len(),
{
    if events.len() == 0 {
        start
    } else {
        react(after(start, events.drop_last(), names.drop_last()), events.last(), names.last()).0
    }
}

/// An applet has a surface exactly while it is visible, whatever the host
/// sends and in whatever order.
pub proof fn lemma_surface_while_visible<W>(events: Seq<AppletEvent>, names: Seq<W>)
    requires
        names.len() == events.len(),
    ensures
        after(initial::<W>(), events, names).visible == after(
            initial::<W>(),
            events,
            names,
        ).surface.is_some(),
    decreases events.len(),
{
    if events.len() > 0 {
        lemma_surface_while_visible(events.drop_last(), names.drop_last());
    }
}

/// The state of an applet's link to its window system and its host, with
/// its placement.
pub struct AppletCore<W, R> {
    margin: Margin,
    grid_size: u32,
    size: Extent,
    direction: Direction,
    visible: bool,
    layer: Layer,
    surface: Option<W>,
    intrinsic: Option<Size>,
    limits: Option<Limits>,
    ready: bool,
    linked: bool,
    pending: Vec<R>,
}

impl<W: Copy, R> AppletCore<W, R> {
    /// The applet's placement.
    pub closed spec fn placement(&self) -> Placement<W> {
        Placement {
            margin: self.margin,
            grid_size: self.grid_size,
            size: self.size,
            direction: self.direction,
            visible: self.visible,
            layer: self.layer,
            surface: self.surface,
        }
    }

    /// The requests that wait for the way to the window system to open,
    /// oldest first.
    pub closed spec fn pending(&self) -> Seq<R> {
        self.pending@
    }

    /// Whether the way to the window system is open.
    pub closed spec fn ready(&self) -> bool {
        self.ready
    }

    /// Whether the applet can send to the host.
    pub closed spec fn linked(&self) -> bool {
        self.linked
    }

    /// The limits the applet last announced.
    pub closed spec fn limits(&self) -> Option<Limits> {
        self.limits
    }

    /// The content size the applet last measured.
    pub closed spec fn intrinsic(&self) -> Option<Size> {
        self.intrinsic
    }

    /// An applet that has heard nothing yet, from the host or the window
    /// system.
    pub fn new() -> (r: Self)
        ensures
            r.placement() == initial::<W>(),
            r.pending() == Seq::<R>::empty(),
            !r.ready(),
            !r.linked(),
            r.limits() is None,
            r.intrinsic() is None,
    {
        AppletCore {
            margin: Margin { top: 0, right: 0, bottom: 0, left: 0 },
            grid_size: DEFAULT_GRID_SIZE,
            size: Extent { width: DEFAULT_GRID_SIZE, height: DEFAULT_GRID_SIZE },
            direction: Direction::Bottom,
            visible: false,
            layer: Layer::Top,
            surface: None,
            intrinsic: None,
            limits: None,
            ready: false,
            linked: false,
            pending: Vec::new(),
        }
    }

    /// The margin the host last gave.
    pub fn margin(&self) -> (r: Margin)
        ensures
            r == self.placement().margin,
    {
        self.margin
    }

    /// The edge length of a grid cell.
    pub fn grid_size(&self) -> (r: u32)
        ensures
            r == self.placement().grid_size,
    {
        self.grid_size
    }

    /// The size the host last gave.
    pub fn size(&self) -> (r: Extent)
        ensures
            r == self.placement().size,
    {
        self.size
    }

    /// The edge the panel is attached to.
    pub fn direction(&self) -> (r: Direction)
        ensures
            r == self.placement().direction,
    {
        self.direction
    }

    /// Whether the host wants the applet shown.
    pub fn visible(&self) -> (r: bool)
        ensures
            r == self.placement().visible,
    {
        self.visible
    }

    /// The layer the applet's surface lives on.
    pub fn layer(&self) -> (r: Layer)
        ensures
            r == self.placement().layer,
    {
        self.layer
    }

    /// The applet's surface, while it has one.
    pub fn surface(&self) -> (r: Option<W>)
        ensures
            r == self.placement().surface,
    {
        self.surface
    }

    /// Takes an event of the host: changes the placement, and returns the
    /// change to the surface that the event asks for. `fresh` is a name that
    /// no surface has yet.
    pub fn on_event(&mut self, event: AppletEvent, fresh: W) -> (r: Option<SurfaceCommand<W>>)
        ensures
            final(self).placement() == react(old(self).placement(), event, fresh).0,
            r == react(old(self).placement(), event, fresh).1,
            final(self).pending() == old(self).pending(),
            final(self).ready() == old(self).ready(),
            final(self).linked() == old(self).linked(),
            final(self).limits() == old(self).limits(),
            final(self).intrinsic() == old(self).intrinsic(),
    {
        match event {
            AppletEvent::GridSize(cell) => {
                self.grid_size = cell;
                None
            },
            AppletEvent::Size(width, height) => {
                self.size = Extent { width, height };
                match self.surface {
                    Some(id) => Some(
                        SurfaceCommand::Resize {
                            id,
                            anchor: self.direction.to_applet_anchor(),
                            size: self.size,
                        },
                    ),
                    None => None,
                }
            },
            AppletEvent::Margin { top, right, bottom, left } => {
                self.margin = Margin { top, right, bottom, left };
                match self.surface {
                    Some(id) => Some(SurfaceCommand::SetMargin { id, margin: self.margin }),
                    None => None,
                }
            },
            AppletEvent::Direction(direction) => {
                self.direction = direction;
                match self.surface {
                    Some(id) => Some(
                        SurfaceCommand::Resize {
                            id,
                            anchor: direction.to_applet_anchor(),
                            size: self.size,
                        },
                    ),
                    None => None,
                }
            },
            AppletEvent::Show => {
                self.visible = true;
                match self.surface {
                    Some(_) => None,
                    None => {
                        self.surface = Some(fresh);
                        Some(
                            SurfaceCommand::Open {
                                id: fresh,
                                size: self.size,
                                layer: self.layer,
                                anchor: self.direction.to_applet_anchor(),
                                exclusive_zone: NO_EXCLUSIVE_ZONE,
                                margin: self.margin,
                            },
                        )
                    },
                }
            },
            AppletEvent::Hide => {
                self.visible = false;
                let open = self.surface;
                self.surface = None;
                match open {
                    Some(id) => Some(SurfaceCommand::Close { id }),
                    None => None,
                }
            },
        }
    }

    /// Books that the applet can send to the host from now on.
    pub fn on_linked(&mut self)
        ensures
            final(self).linked(),
            final(self).placement() == old(self).placement(),
            final(self).pending() == old(self).pending(),
            final(self).ready() == old(self).ready(),
            final(self).limits() == old(self).limits(),
            final(self).intrinsic() == old(self).intrinsic(),
    {
        self.linked = true;
    }

    /// Books the limits the applet's view has now, and returns the request
    /// that tells the host, where the applet can send to the host.
    pub fn on_limits(&mut self, limits: Limits) -> (r: Option<AppletRequest>)
        ensures
            final(self).limits() == Some(limits),
            r == if old(self).linked() {
                Some(AppletRequest::Limits(limits))
            } else {
                None
            },
            final(self).placement() == old(self).placement(),
            final(self).pending() == old(self).pending(),
            final(self).ready() == old(self).ready(),
            final(self).linked() == old(self).linked(),
            final(self).intrinsic() == old(self).intrinsic(),
    {
        self.limits = Some(limits);
        if self.linked {
            Some(AppletRequest::Limits(limits))
        } else {
            None
        }
    }

    /// Books the content size a layout pass has measured, and returns the
    /// request that tells the host, where the measure is new and the applet
    /// can send to the host. `changed` says whether the measure differs from
    /// the one before as a number; the caller compares, because only the
    /// caller reads the patterns as numbers.
    pub fn on_layout(&mut self, size: Size, changed: bool) -> (r: Option<AppletRequest>)
        ensures
            final(self).intrinsic() == Some(size),
            r == if changed && old(self).linked() {
                Some(AppletRequest::Intrinsic(size))
            } else {
                None
            },
            final(self).placement() == old(self).placement(),
            final(self).pending() == old(self).pending(),
            final(self).ready() == old(self).ready(),
            final(self).linked() == old(self).linked(),
            final(self).limits() == old(self).limits(),
    {
        self.intrinsic = Some(size);
        if changed && self.linked {
            Some(AppletRequest::Intrinsic(size))
        } else {
            None
        }
    }

    /// Takes a request to the window system. Where the way is open the
    /// request is handed back to be sent at once; else it waits behind those
    /// that wait already, and `None` is returned.
    pub fn submit(&mut self, request: R) -> (r: Option<R>)
        ensures
            r == if old(self).ready() {
                Some(request)
            } else {
                None
            },
            final(self).pending() == if old(self).ready() {
                old(self).pending()
            } else {
                old(self).pending().push(request)
            },
            final(self).ready() == old(self).ready(),
            final(self).placement() == old(self).placement(),
            final(self).linked() == old(self).linked(),
            final(self).limits() == old(self).limits(),
            final(self).intrinsic() == old(self).intrinsic(),
    {
        if self.ready {
            Some(request)
        } else {
            self.pending.push(request);
            None
        }
    }

    /// Books that the way to the window system is open, and hands out the
    /// requests that waited for it, oldest first.
    pub fn on_ready(&mut self) -> (r: Vec<R>)
        ensures
            r@ == old(self).pending(),
            final(self).pending() == Seq::<R>::empty(),
            final(self).ready(),
            final(self).placement() == old(self).placement(),
            final(self).linked() == old(self).linked(),
            final(self).limits() == old(self).limits(),
            final(self).intrinsic() == old(self).intrinsic(),
    {
        self.ready = true;
        let mut waiting: Vec<R> = Vec::new();
        std::mem::swap(&mut self.pending, &mut waiting);
        waiting
    }
}

} // verus!
