//! Which channels are on the display: the pinned channels first, then a window
//! of the default group chosen by the current page.

use vstd::prelude::*;

verus! {

/// Number of channel slots on the display.
pub const CHANNEL_COUNT: usize = 4;

/// The daemon's two ordered groups of source identifiers.
///
/// Pinned channels are shown on every page; default channels are paged.
#[derive(Debug, Clone, Default)]
pub struct DeviceOrder {
    pub pinned: Vec<u128>,
    pub default: Vec<u128>,
}

/// Slots left for the default group once the pinned channels are placed.
pub open spec fn remaining_slots(pinned: Seq<u128>) -> int {
    if pinned.len() >= 4 {
        0
    } else {
        4 - pinned.len()
    }
}

/// True when the default group has to be paged: some slot is free and the
/// group does not fit into the free slots.
pub open spec fn is_paged(pinned: Seq<u128>, default: Seq<u128>) -> bool {
    pinned.len() < 4 && default.len() > remaining_slots(pinned)
}

/// Index in the default group at which the window of `page` starts.
///
/// The window slides back so that it never runs past the end of the group.
pub open spec fn window_start(pinned: Seq<u128>, default: Seq<u128>, page: int) -> int {
    let slots = remaining_slots(pinned);
    if !is_paged(pinned, default) {
        0
    } else if page * slots + slots > default.len() {
        default.len() - slots
    } else {
        page * slots
    }
}

/// Number of default channels shown on any page.
pub open spec fn window_len(pinned: Seq<u128>, default: Seq<u128>) -> int {
    let slots = remaining_slots(pinned);
    if default.len() <= slots {
        default.len() as int
    } else {
        slots
    }
}

/// The pinned channels that are shown: the first four at most.
pub open spec fn shown_pinned(pinned: Seq<u128>) -> Seq<u128> {
    if pinned.len() >= 4 {
        pinned.subrange(0, 4)
    } else {
        pinned
    }
}

/// The default channels that are shown on `page`.
pub open spec fn shown_default(pinned: Seq<u128>, default: Seq<u128>, page: int) -> Seq<u128> {
    let start = window_start(pinned, default, page);
    default.subrange(start, start + window_len(pinned, default))
}

/// The channels visible on `page`, in display order.
pub open spec fn visible_channels(pinned: Seq<u128>, default: Seq<u128>, page: int) -> Seq<u128> {
    shown_pinned(pinned) + shown_default(pinned, default, page)
}

/// Number of pages: one when the pinned group fills the display or the
/// default group is empty, else the default group's size divided by the free
/// slots, rounded up.
pub open spec fn pages(pinned: Seq<u128>, default: Seq<u128>) -> int {
    let slots = remaining_slots(pinned);
    if pinned.len() >= 4 || default.len() == 0 {
        1
    } else {
        (default.len() + slots - 1) / slots
    }
}

/// The channels shown on `page`: every pinned channel that fits, then the
/// page's window of the default group.
pub fn get_page_channels(order: &DeviceOrder, page: u8) -> (channels: Vec<u128>)
    ensures
        channels@ == visible_channels(order.pinned@, order.default@, page as int),
        channels@.len() <= CHANNEL_COUNT,
{
    let pinned = &order.pinned;
    let others = &order.default;
    let mut channels: Vec<u128> = Vec::with_capacity(CHANNEL_COUNT);

    let mut i: usize = 0;
    while i < pinned.len() && i < CHANNEL_COUNT
        invariant
            i <= pinned.len(),
            i <= CHANNEL_COUNT,
            channels@ == pinned@.subrange(0, i as int),
        decreases pinned.len() - i,
    {
        channels.push(pinned[i]);
        i += 1;
        assert(channels@ =~= pinned@.subrange(0, i as int));
    }
    assert(channels@ =~= shown_pinned(pinned@));

    if channels.len() == CHANNEL_COUNT {
        assert(channels@ =~= visible_channels(pinned@, others@, page as int));
        return channels;
    }
    let per_page: usize = CHANNEL_COUNT - pinned.len();
    if others.len() <= per_page {
        let mut j: usize = 0;
        while j < others.len()
            invariant
                j <= others.len(),
                channels@ == pinned@ + others@.subrange(0, j as int),
            decreases others.len() - j,
        {
            channels.push(others[j]);
            j += 1;
            assert(channels@ =~= pinned@ + others@.subrange(0, j as int));
        }
        assert(channels@ =~= visible_channels(pinned@, others@, page as int));
        return channels;
    }
    assert(per_page * (page as usize) <= 1020) by (nonlinear_arith)
        requires
            per_page <= 4,
            page <= 255,
    ;
    let wanted: usize = per_page * (page as usize);
    let start: usize = if wanted + per_page > others.len() {
        others.len() - per_page
    } else {
        wanted
    };
    assert(start as int == window_start(pinned@, others@, page as int)) by (nonlinear_arith)
        requires
            per_page as int == remaining_slots(pinned@),
            is_paged(pinned@, others@),
            wanted as int == per_page as int * page as int,
            start as int == if wanted + per_page > others@.len() {
                others@.len() - per_page
            } else {
                wanted as int
            },
    ;
    let mut k: usize = 0;
    while k < per_page
        invariant
            k <= per_page,
            start + per_page <= others.len(),
            channels@ == pinned@ + others@.subrange(start as int, start + k),
        decreases per_page - k,
    {
        channels.push(others[start + k]);
        k += 1;
        assert(channels@ =~= pinned@ + others@.subrange(start as int, start + k));
    }
    assert(channels@ =~= visible_channels(pinned@, others@, page as int));
    channels
}

/// Number of pages for `order`; never less than one.
pub fn page_count(order: &DeviceOrder) -> (count: usize)
    ensures
        count == pages(order.pinned@, order.default@),
        count >= 1,
{
    let pinned_len = order.pinned.len();
    let default_len = order.default.len();
    if pinned_len >= CHANNEL_COUNT || default_len == 0 {
        return 1;
    }
    let slots: usize = CHANNEL_COUNT - pinned_len;
    let full: usize = default_len / slots;
    assert(default_len % slots != 0 ==> full < default_len) by (nonlinear_arith)
        requires
            slots >= 1,
            full as int == default_len as int / slots as int,
    ;
    let count: usize = if default_len % slots != 0 {
        full + 1
    } else {
        full
    };
    assert(count as int == (default_len + slots - 1) / (slots as int) && count >= 1)
        by (nonlinear_arith)
        requires
            1 <= slots <= 4,
            default_len >= 1,
            full as int == default_len as int / slots as int,
            count as int == if default_len as int % slots as int != 0 {
                full + 1
            } else {
                full as int
            },
    ;
    count
}

/// Whatever the page, at most four channels are shown, none of them twice,
/// and every pinned channel stands before every default channel, provided
/// that no identifier occurs twice in the two groups taken together.
pub proof fn lemma_visible_channels_ordered(pinned: Seq<u128>, default: Seq<u128>, page: int)
    requires
        page >= 0,
        (pinned + default).no_duplicates(),
    ensures
        visible_channels(pinned, default, page).len() <= 4,
        visible_channels(pinned, default, page).no_duplicates(),
        forall|i: int, j: int|
            #![trigger visible_channels(pinned, default, page)[i], visible_channels(pinned, default, page)[j]]
            0 <= i < visible_channels(pinned, default, page).len()
                && 0 <= j < visible_channels(pinned, default, page).len()
                && pinned.contains(visible_channels(pinned, default, page)[i])
                && default.contains(visible_channels(pinned, default, page)[j]) ==> i < j,
{
    let all = pinned + default;
    let vis = visible_channels(pinned, default, page);
    lemma_window_in_bounds(pinned, default, page);
    // Each visible position maps to a distinct position of `pinned + default`.
    assert forall|i: int| 0 <= i < vis.len() implies vis[i] == all[origin(pinned, default, page, i)]
        && 0 <= origin(pinned, default, page, i) < all.len() by {}
    assert forall|i: int, j: int| 0 <= i < vis.len() && 0 <= j < vis.len() && i != j implies vis[i]
        != vis[j] by {
        let oi = origin(pinned, default, page, i);
        let oj = origin(pinned, default, page, j);
        assert(vis[i] == all[oi] && vis[j] == all[oj]);
        assert(oi != oj);
    }
    assert forall|i: int, j: int|
        0 <= i < vis.len() && 0 <= j < vis.len() && pinned.contains(vis[i]) && default.contains(
            vis[j],
        ) implies i < j by {
        let oi = origin(pinned, default, page, i);
        let oj = origin(pinned, default, page, j);
        assert(vis[i] == all[oi] && vis[j] == all[oj]);
        let a = choose|a: int| 0 <= a < pinned.len() && pinned[a] == vis[i];
        let b = choose|b: int| 0 <= b < default.len() && default[b] == vis[j];
        assert(all[a] == pinned[a]);
        assert(all[pinned.len() + b] == default[b]);
        assert(oi == a);
        assert(oj == pinned.len() + b);
    }
}

/// Position in `pinned + default` of the channel shown at position `i`.
pub open spec fn origin(pinned: Seq<u128>, default: Seq<u128>, page: int, i: int) -> int {
    if i < shown_pinned(pinned).len() {
        i
    } else {
        pinned.len() + window_start(pinned, default, page) + (i - shown_pinned(pinned).len())
    }
}

/// The window of every page lies inside the default group.
pub proof fn lemma_window_in_bounds(pinned: Seq<u128>, default: Seq<u128>, page: int)
    requires
        page >= 0,
    ensures
        0 <= window_start(pinned, default, page),
        0 <= window_len(pinned, default),
        window_start(pinned, default, page) + window_len(pinned, default) <= default.len(),
        shown_pinned(pinned).len() + window_len(pinned, default) <= 4,
        shown_default(pinned, default, page).len() == window_len(pinned, default),
{
    let slots = remaining_slots(pinned);
    assert(page * slots >= 0) by (nonlinear_arith)
        requires
            page >= 0,
            slots >= 0,
    ;
}

/// There is always at least one page, and on every page below the page count
/// the display is not empty and the window read from the default group stays
/// inside it, provided that some channel exists at all.
pub proof fn lemma_every_page_shows_a_window(pinned: Seq<u128>, default: Seq<u128>, page: int)
    requires
        0 <= page < pages(pinned, default),
        pinned.len() + default.len() > 0,
    ensures
        pages(pinned, default) >= 1,
        visible_channels(pinned, default, page).len() > 0,
        0 <= window_start(pinned, default, page),
        window_start(pinned, default, page) + window_len(pinned, default) <= default.len(),
        is_paged(pinned, default) ==> window_len(pinned, default) == remaining_slots(pinned),
{
    lemma_window_in_bounds(pinned, default, page);
}

/// The page count is at least one for every order.
pub proof fn lemma_pages_positive(pinned: Seq<u128>, default: Seq<u128>)
    ensures
        pages(pinned, default) >= 1,
{
    let slots = remaining_slots(pinned);
    if pinned.len() < 4 && default.len() > 0 {
        assert((default.len() + slots - 1) / slots >= 1) by (nonlinear_arith)
            requires
                1 <= slots <= 4,
                default.len() >= 1,
        ;
    }
}

/// Paging loses no channel: every default channel is shown on some page below
/// the page count.
pub proof fn lemma_every_default_channel_has_a_page(
    pinned: Seq<u128>,
    default: Seq<u128>,
    index: int,
) -> (page: int)
    requires
        pinned.len() < 4,
        0 <= index < default.len(),
    ensures
        0 <= page < pages(pinned, default),
        window_start(pinned, default, page) <= index < window_start(pinned, default, page)
            + window_len(pinned, default),
{
    let slots = remaining_slots(pinned);
    let page = index / slots;
    assert(0 <= page && page * slots <= index < page * slots + slots && page < (default.len()
        + slots - 1) / slots) by (nonlinear_arith)
        requires
            1 <= slots <= 4,
            0 <= index < default.len(),
            page == index / slots,
    ;
    page
}

} // verus!
