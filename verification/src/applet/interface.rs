//! The values that travel between the host and an applet, and the static
//! description of an applet.

use std::cmp::Ordering;
use vstd::prelude::*;

pub use crate::applet::runtime::{RuntimeMessage, RuntimeRequest};

verus! {

/// The screen edge a panel is attached to.
#[derive(Debug, Clone, Copy, PartialEq, Eq, Structural)]
pub enum Direction {
    Left,
    Right,
    Top,
    Bottom,
}

/// The screen edge an applet opens towards.
#[derive(Debug, Clone, Copy, PartialEq, Eq, Structural)]
pub enum AppletDirection {
    Left,
    Right,
    Top,
    Bottom,
}

/// The coarse place of an applet along its panel.
#[derive(Debug, Clone, Copy, PartialEq, Eq, PartialOrd, Ord, Structural)]
pub enum AppletPosition {
    Start,
    Center,
    End,
}

/// Distances kept free around a surface, in pixels.
#[derive(Debug, Clone, Copy, PartialEq, Eq, Structural)]
pub struct Margin {
    pub top: i32,
    pub right: i32,
    pub bottom: i32,
    pub left: i32,
}

/// The screen edges a surface is pinned to.
#[derive(Debug, Clone, Copy, PartialEq, Eq, Structural)]
pub struct Anchor {
    pub top: bool,
    pub bottom: bool,
    pub left: bool,
    pub right: bool,
}

/// A measured width and height. Each is the bit pattern of an IEEE 754
/// binary32 number; the library moves these patterns and never computes with
/// them.
#[derive(Debug, Clone, Copy, PartialEq, Eq, Structural)]
pub struct Size {
    pub width: u32,
    pub height: u32,
}

/// The smallest and the largest size a layout may take.
#[derive(Debug, Clone, Copy, PartialEq, Eq, Structural)]
pub struct Limits {
    pub min: Size,
    pub max: Size,
}

/// A layout fact that the host pushes to one applet.
#[derive(Debug, Clone, Copy, PartialEq, Eq, Structural)]
pub enum AppletEvent {
    /// The edge length of one grid cell, in pixels.
    GridSize(u32),
    /// The width and height granted to the applet, in pixels.
    Size(u32, u32),
    /// The margin around the applet's surface.
    Margin { top: i32, right: i32, bottom: i32, left: i32 },
    /// The edge the panel is attached to.
    Direction(Direction),
    /// The applet's surface is to appear.
    Show,
    /// The applet's surface is to go away.
    Hide,
}

/// A layout fact that an applet pushes to the host.
#[derive(Debug, Clone, Copy, PartialEq, Eq, Structural)]
pub enum AppletRequest {
    /// The limits within which the applet can be laid out.
    Limits(Limits),
    /// The size the applet's content takes when left alone.
    Intrinsic(Size),
}

/// The record of one launched applet. It is made when the applet's process
/// has been started, and is known by that process's id. `H` is whatever the
/// host keeps for the applet besides the record: the sending side of its event
/// channel and its hold on the process.
#[derive(Debug, Clone)]
pub struct Applet<H> {
    /// The id of the applet's process.
    pub id: u32,
    /// The place of the applet among those at the same position.
    pub order: u32,
    pub info: AppletInfo,
    /// The limits the applet last asked for.
    pub limits: Option<Limits>,
    /// The content size the applet last measured.
    pub intrinsic: Option<Size>,
    /// The size the host last gave the applet.
    pub size: Option<Size>,
    /// The margin the host last gave the applet.
    pub margin: Margin,
    pub position: AppletPosition,
    pub handle: H,
}

/// What an applet's own logic receives from its link to the host. `S` is the
/// handle through which it sends requests back.
#[derive(Debug, Clone)]
pub enum AppletMessage<S> {
    /// The link's outgoing side is ready.
    Ready(S),
    /// The host sent an event.
    Event(AppletEvent),
}

/// The static description of an applet, as its configuration file gives it.
#[derive(Debug, Clone)]
pub struct AppletInfo {
    pub id: String,
    pub name: String,
    pub keywords: Vec<String>,
    /// The command line that starts the applet: a program and its arguments,
    /// separated by white space.
    pub command: String,
    /// The path of the applet's icon.
    pub icon: String,
}

/// The mathematical value of an [`AppletInfo`].
pub struct AppletInfoView {
    pub id: Seq<char>,
    pub name: Seq<char>,
    pub keywords: Seq<Seq<char>>,
    pub command: Seq<char>,
    pub icon: Seq<char>,
}

impl View for AppletInfo {
    type V = AppletInfoView;

    open spec fn view(&self) -> AppletInfoView {
        AppletInfoView {
            id: self.id@,
            name: self.name@,
            keywords: Seq::new(self.keywords@.len(), |i: int| self.keywords@[i]@),
            command: self.command@,
            icon: self.icon@,
        }
    }
}

impl PartialEq for AppletInfo {
    /// Whether two descriptions say the same, field by field.
    fn eq(&self, other: &Self) -> (r: bool) {
        if !(self.id == other.id && self.name == other.name && self.command == other.command
            && self.icon == other.icon) {
            return false;
        }
        if self.keywords.len() != other.keywords.len() {
            assert(self@.keywords.len() != other@.keywords.len());
            return false;
        }
        let mut i: usize = 0;
        while i < self.keywords.len()
            invariant
                i <= self.keywords.len(),
                self.keywords.len() == other.keywords.len(),
                forall|k: int| 0 <= k < i ==> self.keywords@[k]@ == other.keywords@[k]@,
            decreases self.keywords.len() - i,
        {
            if self.keywords[i] != other.keywords[i] {
                assert(self@.keywords[i as int] != other@.keywords[i as int]);
                return false;
            }
            i += 1;
        }
        assert(self@.keywords =~= other@.keywords);
        true
    }
}

impl Eq for AppletInfo {

}

impl vstd::std_specs::cmp::PartialEqSpecImpl for AppletInfo {
    open spec fn obeys_eq_spec() -> bool {
        true
    }

    open spec fn eq_spec(&self, other: &Self) -> bool {
        self@ == other@
    }
}

impl AppletPosition {
    /// The place of a position along the panel, counted from its start.
    pub open spec fn rank(self) -> int {
        match self {
            AppletPosition::Start => 0,
            AppletPosition::Center => 1,
            AppletPosition::End => 2,
        }
    }

    /// Computes [`AppletPosition::rank`].
    pub fn to_rank(self) -> (r: u8)
        ensures
            r == self.rank(),
    {
        match self {
            AppletPosition::Start => 0,
            AppletPosition::Center => 1,
            AppletPosition::End => 2,
        }
    }
}

impl<H> Applet<H> {
    /// The record of an applet whose process has just been started: nothing
    /// is known of its layout yet.
    pub open spec fn launched(
        info: AppletInfo,
        order: u32,
        position: AppletPosition,
        id: u32,
        handle: H,
    ) -> Applet<H> {
        Applet {
            id,
            order,
            info,
            limits: None,
            intrinsic: None,
            size: None,
            margin: Margin { top: 0, right: 0, bottom: 0, left: 0 },
            position,
            handle,
        }
    }

    /// Makes the record of an applet whose process has just been started.
    pub fn new(info: AppletInfo, order: u32, position: AppletPosition, id: u32, handle: H) -> (r:
        Self)
        ensures
            r == Self::launched(info, order, position, id, handle),
    {
        Applet {
            id,
            order,
            info,
            limits: None,
            intrinsic: None,
            size: None,
            margin: Margin { top: 0, right: 0, bottom: 0, left: 0 },
            position,
            handle,
        }
    }

    /// Whether two records show the same applet in the same place and state
    /// of layout. The size and margin that the host gave, and what the host
    /// keeps besides the record, do not count.
    pub open spec fn same(&self, other: &Self) -> bool {
        &&& self.id == other.id
        &&& self.order == other.order
        &&& self.info@ == other.info@
        &&& self.limits == other.limits
        &&& self.intrinsic == other.intrinsic
        &&& self.position == other.position
    }

    /// How two records are ordered along the panel: by position, and within
    /// one position by order.
    pub open spec fn along_panel(&self, other: &Self) -> Ordering {
        if self.position.rank() < other.position.rank() {
            Ordering::Less
        } else if self.position.rank() > other.position.rank() {
            Ordering::Greater
        } else if self.order < other.order {
            Ordering::Less
        } else if self.order > other.order {
            Ordering::Greater
        } else {
            Ordering::Equal
        }
    }
}

impl<H> PartialEq for Applet<H> {
    fn eq(&self, other: &Self) -> (r: bool) {
        let limits = match (self.limits, other.limits) {
            (Some(a), Some(b)) => a == b,
            (None, None) => true,
            _ => false,
        };
        let intrinsic = match (self.intrinsic, other.intrinsic) {
            (Some(a), Some(b)) => a == b,
            (None, None) => true,
            _ => false,
        };
        self.id == other.id && self.order == other.order && self.info == other.info && limits
            && intrinsic && self.position == other.position
    }
}

impl<H> vstd::std_specs::cmp::PartialEqSpecImpl for Applet<H> {
    open spec fn obeys_eq_spec() -> bool {
        true
    }

    open spec fn eq_spec(&self, other: &Self) -> bool {
        self.same(other)
    }
}

impl<H> PartialOrd for Applet<H> {
    fn partial_cmp(&self, other: &Self) -> (r: Option<Ordering>) {
        let here = self.position.to_rank();
        let there = other.position.to_rank();
        if here < there {
            Some(Ordering::Less)
        } else if here > there {
            Some(Ordering::Greater)
        } else if self.order < other.order {
            Some(Ordering::Less)
        } else if self.order > other.order {
            Some(Ordering::Greater)
        } else {
            Some(Ordering::Equal)
        }
    }
}

impl<H> vstd::std_specs::cmp::PartialOrdSpecImpl for Applet<H> {
    open spec fn obeys_partial_cmp_spec() -> bool {
        true
    }

    open spec fn partial_cmp_spec(&self, other: &Self) -> Option<Ordering> {
        Some(self.along_panel(other))
    }
}

impl Default for Margin {
    fn default() -> (r: Self)
        ensures
            r == (Margin { top: 0, right: 0, bottom: 0, left: 0 }),
    {
        Margin { top: 0, right: 0, bottom: 0, left: 0 }
    }
}

impl Direction {
    /// The edges an applet's surface is pinned to on a panel at this edge: the
    /// panel's own edge, and the edge at which the panel starts.
    pub open spec fn applet_anchor(self) -> Anchor {
        Anchor {
            top: self != Direction::Bottom,
            bottom: self == Direction::Bottom,
            left: self != Direction::Right,
            right: self == Direction::Right,
        }
    }

    /// The edges a panel at this edge is pinned to: its own edge and both
    /// neighbours, so that it spans the edge.
    pub open spec fn panel_anchor(self) -> Anchor {
        Anchor {
            top: self != Direction::Bottom,
            bottom: self != Direction::Top,
            left: self != Direction::Right,
            right: self != Direction::Left,
        }
    }

    /// Computes [`Direction::applet_anchor`].
    pub fn to_applet_anchor(self) -> (r: Anchor)
        ensures
            r == self.applet_anchor(),
    {
        match self {
            Direction::Top => Anchor { top: true, bottom: false, left: true, right: false },
            Direction::Left => Anchor { top: true, bottom: false, left: true, right: false },
            Direction::Right => Anchor { top: true, bottom: false, left: false, right: true },
            Direction::Bottom => Anchor { top: false, bottom: true, left: true, right: false },
        }
    }

    /// The number that stands for this edge on the wire.
    pub open spec fn index(self) -> u32 {
        match self {
            Direction::Left => 0,
            Direction::Right => 1,
            Direction::Top => 2,
            Direction::Bottom => 3,
        }
    }
}

impl From<Direction> for Anchor {
    fn from(value: Direction) -> (r: Anchor) {
        match value {
            Direction::Top => Anchor { top: true, bottom: false, left: true, right: true },
            Direction::Left => Anchor { top: true, bottom: true, left: true, right: false },
            Direction::Right => Anchor { top: true, bottom: true, left: false, right: true },
            Direction::Bottom => Anchor { top: false, bottom: true, left: true, right: true },
        }
    }
}

impl vstd::std_specs::convert::FromSpecImpl<Direction> for Anchor {
    open spec fn obeys_from_spec() -> bool {
        true
    }

    open spec fn from_spec(value: Direction) -> Anchor {
        value.panel_anchor()
    }
}

} // verus!
