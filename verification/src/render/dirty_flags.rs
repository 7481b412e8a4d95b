//! Which regions of the display are stale, and how often a tick had to redraw.
//!
//! Time comes in as a reading of a monotonic clock in nanoseconds.

use vstd::prelude::*;

verus! {

/// The bit of the watchlist table.
pub const WATCHLIST: u32 = 0b0000_0001;

/// The bit of the detail pane of one instrument.
pub const STOCK_DETAIL: u32 = 0b0000_0010;

/// The bit of the portfolio.
pub const PORTFOLIO: u32 = 0b0000_0100;

/// The bit of the carousel of market indexes.
pub const INDEXES: u32 = 0b0000_1000;

/// The bit of the help popup.
pub const POPUP_HELP: u32 = 0b0001_0000;

/// The bit of the search popup.
pub const POPUP_SEARCH: u32 = 0b0010_0000;

/// The bit of the account selector.
pub const POPUP_ACCOUNT: u32 = 0b0100_0000;

/// The bit of the currency selector.
pub const POPUP_CURRENCY: u32 = 0b1000_0000;

/// The bit of the watchlist group selector.
pub const POPUP_WATCHLIST: u32 = 0b0001_0000_0000;

/// The bit of the loading screen.
pub const LOADING: u32 = 0b0010_0000_0000;

/// The bit of the error screen.
pub const ERROR: u32 = 0b0100_0000_0000;

/// The bit of the status bar.
pub const STATUS_BAR: u32 = 0b1000_0000_0000;

/// The bit of the order book.
pub const DEPTH: u32 = 0b0001_0000_0000_0000;

/// Every bit: the whole display.
pub const ALL: u32 = 0xFFFF_FFFF;

/// In a popup selection, the bit of the help popup.
pub const SHOWS_HELP: u8 = 0b1;

/// In a popup selection, the bit of the search popup.
pub const SHOWS_SEARCH: u8 = 0b10;

/// In a popup selection, the bit of the account selector.
pub const SHOWS_ACCOUNT: u8 = 0b100;

/// In a popup selection, the bit of the currency selector.
pub const SHOWS_CURRENCY: u8 = 0b1000;

/// In a popup selection, the bit of the watchlist group selector.
pub const SHOWS_WATCHLIST: u8 = 0b10000;

/// The regions that a quote update makes stale: a price shows in the watchlist,
/// the detail pane, the indexes and the status bar.
pub open spec fn quote_regions() -> u32 {
    WATCHLIST | STOCK_DETAIL | INDEXES | STATUS_BAR
}

/// The regions that a depth update makes stale.
pub open spec fn depth_regions() -> u32 {
    STOCK_DETAIL | DEPTH
}

/// `bits` with the region of each popup that `popup` selects.
pub open spec fn with_popups(bits: u32, popup: u8) -> u32 {
    let a = if popup & SHOWS_HELP != 0 {
        bits | POPUP_HELP
    } else {
        bits
    };
    let b = if popup & SHOWS_SEARCH != 0 {
        a | POPUP_SEARCH
    } else {
        a
    };
    let c = if popup & SHOWS_ACCOUNT != 0 {
        b | POPUP_ACCOUNT
    } else {
        b
    };
    let d = if popup & SHOWS_CURRENCY != 0 {
        c | POPUP_CURRENCY
    } else {
        c
    };
    if popup & SHOWS_WATCHLIST != 0 {
        d | POPUP_WATCHLIST
    } else {
        d
    }
}

/// A set of display regions that need redrawing, one bit each.
#[derive(Clone, Copy, Debug, PartialEq, Eq, Structural)]
pub struct DirtyFlags {
    bits: u32,
}

impl View for DirtyFlags {
    type V = u32;

    closed spec fn view(&self) -> u32 {
        self.bits
    }
}

impl std::ops::BitOr for DirtyFlags {
    type Output = DirtyFlags;

    fn bitor(self, rhs: DirtyFlags) -> (r: DirtyFlags)
        ensures
            r@ == self@ | rhs@,
    {
        DirtyFlags { bits: self.bits | rhs.bits }
    }
}

impl vstd::std_specs::ops::BitOrSpecImpl for DirtyFlags {
    open spec fn obeys_bitor_spec() -> bool {
        true
    }

    open spec fn bitor_req(self, rhs: DirtyFlags) -> bool {
        true
    }

    closed spec fn bitor_spec(self, rhs: DirtyFlags) -> DirtyFlags {
        DirtyFlags { bits: self.bits | rhs.bits }
    }
}

impl DirtyFlags {
    /// The set with exactly the given bits.
    pub fn from_bits(bits: u32) -> (r: Self)
        ensures
            r@ == bits,
    {
        DirtyFlags { bits }
    }

    pub fn bits(&self) -> (r: u32)
        ensures
            r == self@,
    {
        self.bits
    }

    /// No region.
    pub fn none() -> (r: Self)
        ensures
            r@ == 0,
    {
        DirtyFlags { bits: 0 }
    }

    pub fn watchlist() -> (r: Self)
        ensures
            r@ == WATCHLIST,
    {
        DirtyFlags { bits: WATCHLIST }
    }

    pub fn stock_detail() -> (r: Self)
        ensures
            r@ == STOCK_DETAIL,
    {
        DirtyFlags { bits: STOCK_DETAIL }
    }

    pub fn portfolio() -> (r: Self)
        ensures
            r@ == PORTFOLIO,
    {
        DirtyFlags { bits: PORTFOLIO }
    }

    pub fn indexes() -> (r: Self)
        ensures
            r@ == INDEXES,
    {
        DirtyFlags { bits: INDEXES }
    }

    pub fn popup_help() -> (r: Self)
        ensures
            r@ == POPUP_HELP,
    {
        DirtyFlags { bits: POPUP_HELP }
    }

    pub fn popup_search() -> (r: Self)
        ensures
            r@ == POPUP_SEARCH,
    {
        DirtyFlags { bits: POPUP_SEARCH }
    }

    pub fn popup_account() -> (r: Self)
        ensures
            r@ == POPUP_ACCOUNT,
    {
        DirtyFlags { bits: POPUP_ACCOUNT }
    }

    pub fn popup_currency() -> (r: Self)
        ensures
            r@ == POPUP_CURRENCY,
    {
        DirtyFlags { bits: POPUP_CURRENCY }
    }

    pub fn popup_watchlist() -> (r: Self)
        ensures
            r@ == POPUP_WATCHLIST,
    {
        DirtyFlags { bits: POPUP_WATCHLIST }
    }

    pub fn loading() -> (r: Self)
        ensures
            r@ == LOADING,
    {
        DirtyFlags { bits: LOADING }
    }

    pub fn error() -> (r: Self)
        ensures
            r@ == ERROR,
    {
        DirtyFlags { bits: ERROR }
    }

    pub fn status_bar() -> (r: Self)
        ensures
            r@ == STATUS_BAR,
    {
        DirtyFlags { bits: STATUS_BAR }
    }

    pub fn depth() -> (r: Self)
        ensures
            r@ == DEPTH,
    {
        DirtyFlags { bits: DEPTH }
    }

    /// The whole display.
    pub fn all() -> (r: Self)
        ensures
            r@ == ALL,
    {
        DirtyFlags { bits: ALL }
    }

    /// Whether no region is in the set.
    pub fn is_empty(&self) -> (r: bool)
        ensures
            r == (self@ == 0),
    {
        self.bits == 0
    }

    /// Whether every region of `other` is in the set.
    pub fn contains(&self, other: DirtyFlags) -> (r: bool)
        ensures
            r == (self@ & other@ == other@),
    {
        self.bits & other.bits == other.bits
    }

    /// Adds the regions of `other`.
    pub fn insert(&mut self, other: DirtyFlags)
        ensures
            final(self)@ == old(self)@ | other@,
    {
        self.bits = self.bits | other.bits;
    }

    /// Whether any region needs redrawing.
    pub fn needs_render(self) -> (r: bool)
        ensures
            r == (self@ != 0),
    {
        self.bits != 0
    }

    /// The set after a quote update.
    #[must_use]
    pub fn mark_quote_update(self) -> (r: Self)
        ensures
            r@ == self@ | quote_regions(),
    {
        DirtyFlags { bits: self.bits | (WATCHLIST | STOCK_DETAIL | INDEXES | STATUS_BAR) }
    }

    /// The set after an update of the order book.
    #[must_use]
    pub fn mark_depth_update(self) -> (r: Self)
        ensures
            r@ == self@ | depth_regions(),
    {
        DirtyFlags { bits: self.bits | (STOCK_DETAIL | DEPTH) }
    }

    /// The set after an update of the portfolio.
    #[must_use]
    pub fn mark_portfolio_update(self) -> (r: Self)
        ensures
            r@ == self@ | PORTFOLIO,
    {
        DirtyFlags { bits: self.bits | PORTFOLIO }
    }

    /// The set after a change of view: everything.
    #[must_use]
    pub fn mark_state_change(self) -> (r: Self)
        ensures
            r@ == ALL,
    {
        DirtyFlags { bits: ALL }
    }

    /// The set after the popups selected by `popup` opened or closed.
    #[must_use]
    pub fn mark_popup_change(self, popup: u8) -> (r: Self)
        ensures
            r@ == with_popups(self@, popup),
    {
        let mut bits = self.bits;
        if popup & SHOWS_HELP != 0 {
            bits = bits | POPUP_HELP;
        }
        if popup & SHOWS_SEARCH != 0 {
            bits = bits | POPUP_SEARCH;
        }
        if popup & SHOWS_ACCOUNT != 0 {
            bits = bits | POPUP_ACCOUNT;
        }
        if popup & SHOWS_CURRENCY != 0 {
            bits = bits | POPUP_CURRENCY;
        }
        if popup & SHOWS_WATCHLIST != 0 {
            bits = bits | POPUP_WATCHLIST;
        }
        DirtyFlags { bits }
    }
}

/// Marking never takes a region out of the set, and leaves a set that needs
/// redrawing.
pub proof fn lemma_marks_only_add(bits: u32, regions: u32)
    requires
        regions != 0,
    ensures
        (bits | regions) & bits == bits,
        (bits | regions) & regions == regions,
        bits | regions != 0,
{
    assert((bits | regions) & bits == bits) by (bit_vector);
    assert((bits | regions) & regions == regions) by (bit_vector);
    assert(regions != 0 ==> bits | regions != 0) by (bit_vector);
}

/// What a `RenderState` holds.
pub struct RenderStateView {
    pub dirty: u32,
    pub last_render: u64,
    pub render_count: u64,
    pub skip_count: u64,
}

/// The stale regions of the display, and the count of ticks that redrew and of
/// ticks that had nothing to redraw.
#[derive(Debug)]
pub struct RenderState {
    dirty: DirtyFlags,
    last_render: u64,
    render_count: u64,
    skip_count: u64,
}

impl View for RenderState {
    type V = RenderStateView;

    closed spec fn view(&self) -> RenderStateView {
        RenderStateView {
            dirty: self.dirty@,
            last_render: self.last_render,
            render_count: self.render_count,
            skip_count: self.skip_count,
        }
    }
}

impl RenderState {
    /// A clean display, as of clock reading `now`.
    pub fn new(now: u64) -> (r: Self)
        ensures
            r@ == (RenderStateView { dirty: 0, last_render: now, render_count: 0, skip_count: 0 }),
    {
        RenderState { dirty: DirtyFlags::none(), last_render: now, render_count: 0, skip_count: 0 }
    }

    /// Whether any region needs redrawing.
    pub fn needs_render(&self) -> (r: bool)
        ensures
            r == (self@.dirty != 0),
    {
        self.dirty.needs_render()
    }

    /// Marks the regions of `flags` as stale.
    pub fn mark_dirty(&mut self, flags: DirtyFlags)
        ensures
            final(self)@ == (RenderStateView { dirty: old(self)@.dirty | flags@, ..old(self)@ }),
    {
        self.dirty.insert(flags);
    }

    /// Marks the whole display as stale.
    pub fn mark_all_dirty(&mut self)
        ensures
            final(self)@ == (RenderStateView { dirty: ALL, ..old(self)@ }),
    {
        self.dirty = DirtyFlags::all();
    }

    /// Records a redraw at clock reading `now`: nothing is stale any more.
    pub fn clear(&mut self, now: u64)
        requires
            old(self)@.render_count < u64::MAX,
        ensures
            final(self)@ == (RenderStateView {
                dirty: 0,
                last_render: now,
                render_count: (old(self)@.render_count + 1) as u64,
                skip_count: old(self)@.skip_count,
            }),
    {
        self.dirty = DirtyFlags::none();
        self.last_render = now;
        self.render_count = self.render_count + 1;
    }

    /// Records a tick that had nothing to redraw.
    pub fn skip(&mut self)
        requires
            old(self)@.skip_count < u64::MAX,
        ensures
            final(self)@ == (RenderStateView {
                skip_count: (old(self)@.skip_count + 1) as u64,
                ..old(self)@
            }),
    {
        self.skip_count = self.skip_count + 1;
    }

    /// The stale regions.
    pub fn dirty(&self) -> (r: DirtyFlags)
        ensures
            r@ == self@.dirty,
    {
        self.dirty
    }

    /// Nanoseconds from the last redraw to clock reading `now`; none where the
    /// clock reads earlier.
    pub fn time_since_last_render(&self, now: u64) -> (r: u64)
        ensures
            r == if now >= self@.last_render {
                now - self@.last_render
            } else {
                0
            },
    {
        if now >= self.last_render {
            now - self.last_render
        } else {
            0
        }
    }

    /// How many ticks redrew.
    pub fn render_count(&self) -> (r: u64)
        ensures
            r == self@.render_count,
    {
        self.render_count
    }

    /// How many ticks had nothing to redraw.
    pub fn skip_count(&self) -> (r: u64)
        ensures
            r == self@.skip_count,
    {
        self.skip_count
    }

    /// What a tick does: it redraws if anything is stale, and nothing is stale
    /// afterwards; else it counts a skip. The answer says whether to redraw.
    pub fn tick(&mut self, now: u64) -> (r: bool)
        requires
            old(self)@.render_count < u64::MAX,
            old(self)@.skip_count < u64::MAX,
        ensures
            r == (old(self)@.dirty != 0),
            final(self)@ == if r {
                RenderStateView {
                    dirty: 0,
                    last_render: now,
                    render_count: (old(self)@.render_count + 1) as u64,
                    skip_count: old(self)@.skip_count,
                }
            } else {
                RenderStateView {
                    skip_count: (old(self)@.skip_count + 1) as u64,
                    ..old(self)@
                }
            },
    {
        if self.needs_render() {
            self.clear(now);
            true
        } else {
            self.skip();
            false
        }
    }
}

} // verus!
