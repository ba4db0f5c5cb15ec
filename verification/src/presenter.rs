//! How a decoded frame gets on the screen: where it goes, which surfaces are
//! kept ready, and what the answers of the swap chain mean.

use crate::desktop::Rect;
use crate::native_audio::{WAIT_BROKEN, WAIT_SIGNALLED, WAIT_TIMED_OUT};
use crate::smoke_test::FrameOutcome;
use crate::text::{decimal, hexadecimal, push_decimal, push_status};
use vstd::prelude::*;
use vstd::string::*;

verus! {

/// Present status: the compositor still uses the buffer.
pub const STATUS_STILL_DRAWING: i32 = -2005270518;

/// How many surfaces have their views kept.
pub const MAX_CACHED_INPUT_VIEWS: usize = 16;

/// The signed number that has the bits of `n`.
pub open spec fn signed(n: u32) -> int {
    if n <= i32::MAX {
        n as int
    } else {
        n - 0x1_0000_0000
    }
}

fn as_signed(n: u32) -> (value: i32)
    ensures
        value == signed(n),
{
    #[verifier::truncate]
    let value: i32 = n as i32;
    proof {
        assert(n <= 0x7FFF_FFFF ==> n as i32 == n) by (bit_vector);
        assert(n > 0x7FFF_FFFF ==> (n as i32) as i64 == n as i64 - 0x1_0000_0000i64)
            by (bit_vector);
    }
    value
}

/// The larger of a number and one.
pub open spec fn at_least_one(n: int) -> int {
    if n < 1 {
        1
    } else {
        n
    }
}

/// The size of a picture that keeps its proportions: as large as the output
/// allows, but at least one pixel across.
pub open spec fn fitted_size(
    input_width: u32,
    input_height: u32,
    output_width: u32,
    output_height: u32,
) -> (int, int) {
    if output_width * input_height <= output_height * input_width {
        (output_width as int, at_least_one(output_width * input_height / input_width as int))
    } else {
        (at_least_one(output_height * input_width / input_height as int), output_height as int)
    }
}

/// The margin that centres `size` in `room`.
pub open spec fn margin(room: int, size: int) -> int {
    if size < room {
        (room - size) / 2
    } else {
        0
    }
}

/// Whether a picture keeps its proportions.
pub open spec fn keeps_aspect(input_width: u32, input_height: u32, stretch_to_fill: bool) -> bool {
    !stretch_to_fill && input_width != 0 && input_height != 0
}

/// Whether the far edges of the picture can be counted in 32 bits.
pub open spec fn destination_fits(
    input_width: u32,
    input_height: u32,
    output_width: u32,
    output_height: u32,
    stretch_to_fill: bool,
) -> bool {
    let (width, height) = fitted_size(input_width, input_height, output_width, output_height);
    keeps_aspect(input_width, input_height, stretch_to_fill) ==> {
        &&& margin(output_width as int, width) + signed(width as u32) <= i32::MAX
        &&& margin(output_height as int, height) + signed(height as u32) <= i32::MAX
    }
}

/// Where the picture goes: over the whole output, or centred in it with its
/// proportions kept.
pub open spec fn destination(
    input_width: u32,
    input_height: u32,
    output_width: u32,
    output_height: u32,
    stretch_to_fill: bool,
) -> Rect {
    if !keeps_aspect(input_width, input_height, stretch_to_fill) {
        Rect {
            left: 0,
            top: 0,
            right: signed(output_width) as i32,
            bottom: signed(output_height) as i32,
        }
    } else {
        let (width, height) = fitted_size(input_width, input_height, output_width, output_height);
        let left = margin(output_width as int, width);
        let top = margin(output_height as int, height);
        Rect {
            left: left as i32,
            top: top as i32,
            right: (left + signed(width as u32)) as i32,
            bottom: (top + signed(height as u32)) as i32,
        }
    }
}

/// The scaled side of a fitted picture stays within the output.
proof fn lemma_scaled(side: int, other_in: int, this_in: int, bound: int)
    requires
        0 <= side,
        0 < this_in,
        0 <= other_in,
        0 <= bound,
        side * other_in <= bound * this_in,
    ensures
        0 <= side * other_in / this_in <= bound,
        (side * other_in / this_in) * this_in <= side * other_in,
        side * other_in < (side * other_in / this_in + 1) * this_in,
{
    let product = side * other_in;
    assert(0 <= product) by (nonlinear_arith)
        requires
            product == side * other_in,
            0 <= side,
            0 <= other_in,
    ;
    let scaled = product / this_in;
    assert(scaled * this_in <= product && product < (scaled + 1) * this_in) by (nonlinear_arith)
        requires
            0 < this_in,
            0 <= product,
            scaled == product / this_in,
    ;
    assert(0 <= scaled) by (nonlinear_arith)
        requires
            0 < this_in,
            0 <= product,
            scaled == product / this_in,
    ;
    assert(scaled <= bound) by (nonlinear_arith)
        requires
            0 < this_in,
            scaled * this_in <= product,
            product <= bound * this_in,
    ;
}

/// Where the picture goes on the output.
pub fn destination_rect(
    input_width: u32,
    input_height: u32,
    output_width: u32,
    output_height: u32,
    stretch_to_fill: bool,
) -> (rect: Rect)
    requires
        destination_fits(input_width, input_height, output_width, output_height, stretch_to_fill),
    ensures
        rect == destination(
            input_width,
            input_height,
            output_width,
            output_height,
            stretch_to_fill,
        ),
{
    if stretch_to_fill || input_width == 0 || input_height == 0 {
        return Rect {
            left: 0,
            top: 0,
            right: as_signed(output_width),
            bottom: as_signed(output_height),
        };
    }
    proof {
        lemma_products_fit(output_width, input_height);
        lemma_products_fit(output_height, input_width);
    }
    let across: u64 = output_width as u64 * input_height as u64;
    let down: u64 = output_height as u64 * input_width as u64;
    let width: u32;
    let height: u32;
    if across <= down {
        proof {
            lemma_scaled(
                output_width as int,
                input_height as int,
                input_width as int,
                output_height as int,
            );
        }
        let scaled: u32 = (across / input_width as u64) as u32;
        width = output_width;
        height = if scaled < 1 {
            1
        } else {
            scaled
        };
    } else {
        proof {
            lemma_scaled(
                output_height as int,
                input_width as int,
                input_height as int,
                output_width as int,
            );
        }
        let scaled: u32 = (down / input_height as u64) as u32;
        width = if scaled < 1 {
            1
        } else {
            scaled
        };
        height = output_height;
    }
    let left: i32 = (output_width.saturating_sub(width) / 2) as i32;
    let top: i32 = (output_height.saturating_sub(height) / 2) as i32;
    Rect { left, top, right: left + as_signed(width), bottom: top + as_signed(height) }
}

proof fn lemma_products_fit(left: u32, right: u32)
    ensures
        0 <= left * right <= u64::MAX,
{
    assert(0 <= left * right <= u64::MAX) by (nonlinear_arith)
        requires
            0 <= left <= u32::MAX,
            0 <= right <= u32::MAX,
    ;
}

/// On an output that has pixels, and whose sides can be counted in 31 bits, the
/// picture lies inside the output.
pub proof fn the_picture_stays_inside(
    input_width: u32,
    input_height: u32,
    output_width: u32,
    output_height: u32,
    stretch_to_fill: bool,
)
    requires
        1 <= output_width <= i32::MAX,
        1 <= output_height <= i32::MAX,
    ensures
        destination_fits(input_width, input_height, output_width, output_height, stretch_to_fill),
        ({
            let rect = destination(
                input_width,
                input_height,
                output_width,
                output_height,
                stretch_to_fill,
            );
            &&& 0 <= rect.left < rect.right <= output_width
            &&& 0 <= rect.top < rect.bottom <= output_height
        }),
{
    if keeps_aspect(input_width, input_height, stretch_to_fill) {
        if output_width * input_height <= output_height * input_width {
            lemma_scaled(
                output_width as int,
                input_height as int,
                input_width as int,
                output_height as int,
            );
        } else {
            lemma_scaled(
                output_height as int,
                input_width as int,
                input_height as int,
                output_width as int,
            );
        }
    }
}

/// The bars around a picture that keeps its proportions differ by at most one
/// pixel, and in one direction there are none.
pub proof fn the_picture_is_centred(
    input_width: u32,
    input_height: u32,
    output_width: u32,
    output_height: u32,
)
    requires
        input_width != 0,
        input_height != 0,
        1 <= output_width <= i32::MAX,
        1 <= output_height <= i32::MAX,
    ensures
        ({
            let rect = destination(input_width, input_height, output_width, output_height, false);
            let right_bar = output_width - rect.right;
            let bottom_bar = output_height - rect.bottom;
            &&& rect.left <= right_bar <= rect.left + 1
            &&& rect.top <= bottom_bar <= rect.top + 1
            &&& (rect.left == 0 && right_bar == 0) || (rect.top == 0 && bottom_bar == 0)
        }),
{
    the_picture_stays_inside(input_width, input_height, output_width, output_height, false);
    if output_width * input_height <= output_height * input_width {
        lemma_scaled(
            output_width as int,
            input_height as int,
            input_width as int,
            output_height as int,
        );
    } else {
        lemma_scaled(
            output_height as int,
            input_width as int,
            input_height as int,
            output_width as int,
        );
    }
}

/// The proportions of the picture are kept to the pixel: the side that is
/// scaled is the exact one rounded down, or the single pixel that is always
/// left.
pub proof fn the_picture_keeps_its_proportions(
    input_width: u32,
    input_height: u32,
    output_width: u32,
    output_height: u32,
)
    requires
        input_width != 0,
        input_height != 0,
        1 <= output_width <= i32::MAX,
        1 <= output_height <= i32::MAX,
    ensures
        ({
            let rect = destination(input_width, input_height, output_width, output_height, false);
            let width = rect.right - rect.left;
            let height = rect.bottom - rect.top;
            ||| width == output_width && width * input_height < (height + 1) * input_width && (
            height == 1 || height * input_width <= width * input_height)
            ||| height == output_height && height * input_width < (width + 1) * input_height && (
            width == 1 || width * input_height <= height * input_width)
        }),
{
    the_picture_stays_inside(input_width, input_height, output_width, output_height, false);
    let rect = destination(input_width, input_height, output_width, output_height, false);
    let (width, height) = fitted_size(input_width, input_height, output_width, output_height);
    if output_width * input_height <= output_height * input_width {
        lemma_scaled(
            output_width as int,
            input_height as int,
            input_width as int,
            output_height as int,
        );
        assert(rect.right - rect.left == width && rect.bottom - rect.top == height);
        let scaled = output_width * input_height / input_width as int;
        if scaled < 1 {
            assert(output_width * input_height < 2 * input_width) by (nonlinear_arith)
                requires
                    output_width * input_height < (scaled + 1) * input_width,
                    scaled < 1,
                    input_width > 0,
            ;
        }
    } else {
        lemma_scaled(
            output_height as int,
            input_width as int,
            input_height as int,
            output_width as int,
        );
        assert(rect.right - rect.left == width && rect.bottom - rect.top == height);
        let scaled = output_height * input_width / input_height as int;
        if scaled < 1 {
            assert(output_height * input_width < 2 * input_height) by (nonlinear_arith)
                requires
                    output_height * input_width < (scaled + 1) * input_height,
                    scaled < 1,
                    input_height > 0,
            ;
        }
    }
}

/// What a video processor is made for.
#[derive(Clone, Copy, Debug, PartialEq, Eq, Structural)]
pub struct VideoProcessorPlan {
    pub frame_rate_numerator: u32,
    pub frame_rate_denominator: u32,
    pub input_width: u32,
    pub input_height: u32,
    pub output_width: u32,
    pub output_height: u32,
    /// The part of the picture that is shown: all of it.
    pub source: Rect,
    /// Where it goes.
    pub destination: Rect,
    /// The part of the output that is painted: all of it.
    pub output_target: Rect,
    /// How many back buffers get an output view.
    pub buffer_count: u32,
}

/// What the video processor is made for when frames of a size come in.
pub fn create_video_processor_resources(
    input_width: u32,
    input_height: u32,
    output_width: u32,
    output_height: u32,
    buffer_count: u32,
    stretch_to_fill: bool,
) -> (plan: VideoProcessorPlan)
    requires
        destination_fits(input_width, input_height, output_width, output_height, stretch_to_fill),
    ensures
        plan == (VideoProcessorPlan {
            frame_rate_numerator: 60,
            frame_rate_denominator: 1,
            input_width,
            input_height,
            output_width,
            output_height,
            source: Rect {
                left: 0,
                top: 0,
                right: signed(input_width) as i32,
                bottom: signed(input_height) as i32,
            },
            destination: destination(
                input_width,
                input_height,
                output_width,
                output_height,
                stretch_to_fill,
            ),
            output_target: Rect {
                left: 0,
                top: 0,
                right: signed(output_width) as i32,
                bottom: signed(output_height) as i32,
            },
            buffer_count,
        }),
{
    VideoProcessorPlan {
        frame_rate_numerator: 60,
        frame_rate_denominator: 1,
        input_width,
        input_height,
        output_width,
        output_height,
        source: Rect {
            left: 0,
            top: 0,
            right: as_signed(input_width),
            bottom: as_signed(input_height),
        },
        destination: destination_rect(
            input_width,
            input_height,
            output_width,
            output_height,
            stretch_to_fill,
        ),
        output_target: Rect {
            left: 0,
            top: 0,
            right: as_signed(output_width),
            bottom: as_signed(output_height),
        },
        buffer_count,
    }
}

/// What a decoded surface is known by: its texture and its place in it.
#[derive(Clone, Copy, Debug, PartialEq, Eq, Structural)]
pub struct SurfaceKey {
    pub texture: usize,
    pub subresource: u32,
}

/// The view of a surface that is kept, and when it was last used.
pub struct CachedInputView<V> {
    pub key: SurfaceKey,
    pub view: V,
    pub last_used: u64,
}

/// What is kept of a surface.
pub ghost struct KeptView<V> {
    pub view: V,
    pub last_used: u64,
}

/// The views of surfaces that were shown lately.
pub struct InputViews<V> {
    entries: Vec<CachedInputView<V>>,
    epoch: u64,
}

spec fn kept_views<V>(entries: Seq<CachedInputView<V>>) -> Map<SurfaceKey, KeptView<V>>
    decreases entries.len(),
{
    if entries.len() == 0 {
        Map::empty()
    } else {
        let last = entries.last();
        kept_views(entries.drop_last()).insert(
            last.key,
            KeptView { view: last.view, last_used: last.last_used },
        )
    }
}

spec fn keys_differ<V>(entries: Seq<CachedInputView<V>>) -> bool {
    forall|i: int, j: int|
        0 <= i < j < entries.len() ==> #[trigger] entries[i].key != #[trigger] entries[j].key
}

proof fn lemma_kept<V>(entries: Seq<CachedInputView<V>>)
    requires
        keys_differ(entries),
    ensures
        kept_views(entries).dom().finite(),
        kept_views(entries).dom().len() == entries.len(),
        forall|i: int|
            0 <= i < entries.len() ==> #[trigger] kept_views(entries).contains_key(entries[i].key)
                && kept_views(entries)[entries[i].key] == (KeptView {
                view: entries[i].view,
                last_used: entries[i].last_used,
            }),
        forall|key: SurfaceKey| #[trigger]
            kept_views(entries).contains_key(key) ==> exists|i: int|
                0 <= i < entries.len() && #[trigger] entries[i].key == key,
    decreases entries.len(),
{
    if entries.len() > 0 {
        let front = entries.drop_last();
        lemma_kept(front);
        let n = front.len() as int;
        assert forall|i: int| 0 <= i < entries.len() implies #[trigger] kept_views(
            entries,
        ).contains_key(entries[i].key) && kept_views(entries)[entries[i].key] == (KeptView {
            view: entries[i].view,
            last_used: entries[i].last_used,
        }) by {
            if i < n {
                assert(front[i] == entries[i]);
                assert(kept_views(front).contains_key(front[i].key));
                assert(entries[i].key != entries[n].key);
            }
        }
        assert forall|key: SurfaceKey| #[trigger] kept_views(entries).contains_key(
            key,
        ) implies exists|i: int| 0 <= i < entries.len() && #[trigger] entries[i].key == key by {
            if key == entries.last().key {
                assert(entries[n].key == key);
            } else {
                assert(kept_views(front).contains_key(key));
                let i = choose|i: int| 0 <= i < front.len() && #[trigger] front[i].key == key;
                assert(entries[i].key == key);
            }
        }
        if kept_views(front).contains_key(entries.last().key) {
            let i = choose|i: int|
                0 <= i < front.len() && #[trigger] front[i].key == entries.last().key;
            assert(entries[i].key == entries[n].key);
        }
        assert(kept_views(entries).dom() =~= kept_views(front).dom().insert(entries.last().key));
    } else {
        assert(kept_views(entries).dom() =~= Set::<SurfaceKey>::empty());
    }
}

proof fn lemma_same_views<V>(
    entries: Seq<CachedInputView<V>>,
    views: Map<SurfaceKey, KeptView<V>>,
)
    requires
        keys_differ(entries),
        forall|i: int|
            0 <= i < entries.len() ==> #[trigger] views.contains_key(entries[i].key)
                && views[entries[i].key] == (KeptView {
                view: entries[i].view,
                last_used: entries[i].last_used,
            }),
        forall|key: SurfaceKey| #[trigger]
            views.contains_key(key) ==> exists|i: int|
                0 <= i < entries.len() && #[trigger] entries[i].key == key,
    ensures
        kept_views(entries) == views,
{
    lemma_kept(entries);
    assert forall|key: SurfaceKey| #[trigger] kept_views(entries).contains_key(key)
        == views.contains_key(key) by {
        if kept_views(entries).contains_key(key) {
            let i = choose|i: int| 0 <= i < entries.len() && #[trigger] entries[i].key == key;
            assert(views.contains_key(entries[i].key));
        }
        if views.contains_key(key) {
            let i = choose|i: int| 0 <= i < entries.len() && #[trigger] entries[i].key == key;
            assert(kept_views(entries).contains_key(entries[i].key));
        }
    }
    assert forall|key: SurfaceKey| #[trigger] views.contains_key(key) implies kept_views(
        entries,
    )[key] == views[key] by {
        let i = choose|i: int| 0 <= i < entries.len() && #[trigger] entries[i].key == key;
        assert(kept_views(entries).contains_key(entries[i].key));
    }
    assert(kept_views(entries) =~= views);
}

/// Whether a surface has been unused for longest.
pub open spec fn stalest<V>(views: Map<SurfaceKey, KeptView<V>>, key: SurfaceKey) -> bool {
    &&& views.contains_key(key)
    &&& forall|other: SurfaceKey| #[trigger]
        views.contains_key(other) ==> views[key].last_used <= views[other].last_used
}

/// Whether `room` is what is left of `views` once there is room for one more:
/// all of them, or, where it is full, all but one that has been unused for
/// longest.
pub open spec fn makes_room<V>(
    views: Map<SurfaceKey, KeptView<V>>,
    room: Map<SurfaceKey, KeptView<V>>,
) -> bool {
    if views.dom().len() < MAX_CACHED_INPUT_VIEWS {
        room == views
    } else {
        exists|key: SurfaceKey| #[trigger] stalest(views, key) && room == views.remove(key)
    }
}

/// The time after `epoch`, which starts over where it ends.
pub open spec fn next_epoch(epoch: u64) -> u64 {
    if epoch < u64::MAX {
        (epoch + 1) as u64
    } else {
        0
    }
}

proof fn lemma_stays_in_order<V>(before: InputViews<V>, after: InputViews<V>, key: SurfaceKey)
    requires
        before.in_order(),
        before.epoch() < after.epoch(),
        forall|k: SurfaceKey| #[trigger]
            after@.contains_key(k) ==> (before@.contains_key(k) && after@[k] == before@[k]) || (k
                == key && after@[k].last_used == after.epoch()),
    ensures
        after.in_order(),
{
    assert forall|k: SurfaceKey, other: SurfaceKey|
        #![trigger after@.contains_key(k), after@.contains_key(other)]
        after@.contains_key(k) && after@.contains_key(other) && k != other implies after@[k].last_used
        != after@[other].last_used by {
        if before@.contains_key(k) && before@.contains_key(other) {
            assert(before@[k].last_used <= before.epoch());
            assert(before@[other].last_used <= before.epoch());
        }
    }
}

impl<V> View for InputViews<V> {
    type V = Map<SurfaceKey, KeptView<V>>;

    closed spec fn view(&self) -> Map<SurfaceKey, KeptView<V>> {
        kept_views(self.entries@)
    }
}

impl<V> InputViews<V> {
    /// No surface has two views, and there are not too many.
    pub closed spec fn wf(&self) -> bool {
        &&& keys_differ(self.entries@)
        &&& self.entries@.len() <= MAX_CACHED_INPUT_VIEWS
    }

    /// The time of the last use.
    pub closed spec fn epoch(&self) -> u64 {
        self.epoch
    }

    /// Times of use tell the order of use: no view is stamped later than now,
    /// and no two at the same time. Only where time starts over is this lost.
    pub open spec fn in_order(&self) -> bool {
        &&& forall|key: SurfaceKey| #[trigger]
            self@.contains_key(key) ==> self@[key].last_used <= self.epoch()
        &&& forall|key: SurfaceKey, other: SurfaceKey|
            #![trigger self@.contains_key(key), self@.contains_key(other)]
            self@.contains_key(key) && self@.contains_key(other) && key != other
                ==> self@[key].last_used != self@[other].last_used
    }

    /// Nothing is kept.
    pub fn new() -> (views: Self)
        ensures
            views.wf(),
            views.in_order(),
            views@ == Map::<SurfaceKey, KeptView<V>>::empty(),
            views.epoch() == 0,
    {
        InputViews { entries: Vec::with_capacity(MAX_CACHED_INPUT_VIEWS), epoch: 0 }
    }

    /// There are never more than the bound.
    pub proof fn bounded(&self)
        requires
            self.wf(),
        ensures
            self@.dom().len() <= MAX_CACHED_INPUT_VIEWS,
    {
        lemma_kept(self.entries@);
    }

    fn position(&self, key: SurfaceKey) -> (found: Option<usize>)
        requires
            self.wf(),
        ensures
            match found {
                Some(i) => i < self.entries@.len() && self.entries@[i as int].key == key,
                None => forall|i: int|
                    0 <= i < self.entries@.len() ==> #[trigger] self.entries@[i].key != key,
            },
    {
        let mut i: usize = 0;
        while i < self.entries.len()
            invariant
                i <= self.entries@.len(),
                forall|j: int| 0 <= j < i ==> #[trigger] self.entries@[j].key != key,
            decreases self.entries@.len() - i,
        {
            if self.entries[i].key == key {
                return Some(i);
            }
            i = i + 1;
        }
        None
    }

    /// The view of a surface, if it is kept.
    pub fn get(&self, key: SurfaceKey) -> (view: Option<&V>)
        requires
            self.wf(),
        ensures
            match view {
                Some(view) => self@.contains_key(key) && *view == self@[key].view,
                None => !self@.contains_key(key),
            },
    {
        proof {
            lemma_kept(self.entries@);
        }
        match self.position(key) {
            Some(i) => {
                assert(self@.contains_key(self.entries@[i as int].key));
                Some(&self.entries[i].view)
            },
            None => None,
        }
    }

    /// Uses the view of a surface, if it is kept, and says whether it is.
    pub fn take_cached_input_view(&mut self, key: SurfaceKey) -> (hit: bool)
        requires
            old(self).wf(),
        ensures
            final(self).wf(),
            old(self).in_order() && old(self).epoch() < u64::MAX ==> final(self).in_order(),
            hit == old(self)@.contains_key(key),
            final(self).epoch() == next_epoch(old(self).epoch()),
            !hit ==> final(self)@ == old(self)@,
            hit ==> final(self)@ == old(self)@.insert(
                key,
                KeptView { view: old(self)@[key].view, last_used: final(self).epoch() },
            ),
    {
        self.epoch = self.epoch.wrapping_add(1);
        proof {
            lemma_kept(self.entries@);
        }
        match self.position(key) {
            Some(i) => {
                let ghost before = self.entries@;
                assert(old(self)@.contains_key(before[i as int].key));
                self.entries[i].last_used = self.epoch;
                proof {
                    let after = self.entries@;
                    let views = old(self)@.insert(
                        key,
                        KeptView { view: old(self)@[key].view, last_used: self.epoch },
                    );
                    assert forall|j: int| 0 <= j < after.len() implies after[j].key
                        == before[j].key by {}
                    assert forall|j: int| 0 <= j < after.len() implies #[trigger] views.contains_key(
                        after[j].key,
                    ) && views[after[j].key] == (KeptView {
                        view: after[j].view,
                        last_used: after[j].last_used,
                    }) by {
                        assert(old(self)@.contains_key(before[j].key));
                        if j < i {
                            assert(before[j].key != before[i as int].key);
                        }
                        if i < j {
                            assert(before[i as int].key != before[j].key);
                        }
                    }
                    assert forall|k: SurfaceKey| #[trigger] views.contains_key(
                        k,
                    ) implies exists|j: int|
                        0 <= j < after.len() && #[trigger] after[j].key == k by {
                        assert(old(self)@.contains_key(k));
                        let j = choose|j: int|
                            0 <= j < before.len() && #[trigger] before[j].key == k;
                        assert(after[j].key == k);
                    }
                    lemma_same_views(after, views);
                    if old(self).in_order() && old(self).epoch() < u64::MAX {
                        lemma_stays_in_order(*old(self), *self, key);
                    }
                }
                true
            },
            None => {
                proof {
                    if old(self).in_order() && old(self).epoch() < u64::MAX {
                        lemma_stays_in_order(*old(self), *self, key);
                    }
                }
                false
            },
        }
    }

    fn stalest_position(&self) -> (found: usize)
        requires
            self.wf(),
            self.entries@.len() > 0,
        ensures
            found < self.entries@.len(),
            forall|j: int|
                0 <= j < self.entries@.len() ==> self.entries@[found as int].last_used
                    <= #[trigger] self.entries@[j].last_used,
    {
        let mut found: usize = 0;
        let mut i: usize = 1;
        while i < self.entries.len()
            invariant
                0 < i <= self.entries@.len(),
                found < i,
                forall|j: int|
                    0 <= j < i ==> self.entries@[found as int].last_used <= #[trigger]
                        self.entries@[j].last_used,
            decreases self.entries@.len() - i,
        {
            if self.entries[i].last_used < self.entries[found].last_used {
                found = i;
            }
            i = i + 1;
        }
        found
    }

    fn make_room(&mut self)
        requires
            old(self).wf(),
        ensures
            final(self).wf(),
            final(self).entries@.len() < MAX_CACHED_INPUT_VIEWS,
            final(self).epoch() == old(self).epoch(),
            makes_room(old(self)@, final(self)@),
    {
        proof {
            lemma_kept(self.entries@);
        }
        if self.entries.len() >= MAX_CACHED_INPUT_VIEWS {
            let stale: usize = self.stalest_position();
            let ghost before = self.entries@;
            let ghost key = before[stale as int].key;
            let _ = self.entries.remove(stale);
            proof {
                let after = self.entries@;
                let views = old(self)@.remove(key);
                assert(old(self)@.contains_key(before[stale as int].key));
                assert forall|other: SurfaceKey| #[trigger] old(self)@.contains_key(
                    other,
                ) implies old(self)@[key].last_used <= old(self)@[other].last_used by {
                    let j = choose|j: int|
                        0 <= j < before.len() && #[trigger] before[j].key == other;
                    assert(old(self)@.contains_key(before[j].key));
                }
                assert(stalest(old(self)@, key));
                assert forall|i: int, j: int| 0 <= i < j < after.len() implies #[trigger] after[i].key
                    != #[trigger] after[j].key by {
                    let i0 = if i < stale {
                        i
                    } else {
                        i + 1
                    };
                    let j0 = if j < stale {
                        j
                    } else {
                        j + 1
                    };
                    assert(before[i0].key != before[j0].key);
                }
                assert forall|j: int| 0 <= j < after.len() implies #[trigger] views.contains_key(
                    after[j].key,
                ) && views[after[j].key] == (KeptView {
                    view: after[j].view,
                    last_used: after[j].last_used,
                }) by {
                    let j0 = if j < stale {
                        j
                    } else {
                        j + 1
                    };
                    assert(after[j] == before[j0]);
                    assert(old(self)@.contains_key(before[j0].key));
                    if j0 < stale {
                        assert(before[j0].key != before[stale as int].key);
                    } else {
                        assert(before[stale as int].key != before[j0].key);
                    }
                }
                assert forall|k: SurfaceKey| #[trigger] views.contains_key(k) implies exists|
                    j: int,
                | 0 <= j < after.len() && #[trigger] after[j].key == k by {
                    assert(old(self)@.contains_key(k));
                    let j0 = choose|j0: int|
                        0 <= j0 < before.len() && #[trigger] before[j0].key == k;
                    let j = if j0 < stale {
                        j0
                    } else {
                        j0 - 1
                    };
                    assert(after[j] == before[j0]);
                    assert(after[j].key == k);
                }
                lemma_same_views(after, views);
            }
        }
    }

    /// Keeps the view of a surface. Where too many are kept, one that has been
    /// unused for longest makes room.
    pub fn create_cached_input_view(&mut self, key: SurfaceKey, view: V)
        requires
            old(self).wf(),
        ensures
            final(self).wf(),
            old(self).in_order() && old(self).epoch() < u64::MAX ==> final(self).in_order(),
            final(self).epoch() == next_epoch(old(self).epoch()),
            exists|room: Map<SurfaceKey, KeptView<V>>| #[trigger]
                makes_room(old(self)@, room) && final(self)@ == room.insert(
                    key,
                    KeptView { view, last_used: final(self).epoch() },
                ),
    {
        self.make_room();
        self.epoch = self.epoch.wrapping_add(1);
        let ghost room = self@;
        let ghost before = self.entries@;
        let ghost views = room.insert(key, KeptView { view, last_used: self.epoch });
        proof {
            lemma_kept(before);
        }
        let entry = CachedInputView { key, view, last_used: self.epoch };
        match self.position(key) {
            Some(i) => {
                self.entries.set(i, entry);
                proof {
                    let after = self.entries@;
                    assert forall|j: int| 0 <= j < after.len() implies #[trigger] after[j].key
                        == before[j].key by {}
                    assert forall|j: int| 0 <= j < after.len() implies #[trigger] views.contains_key(
                        after[j].key,
                    ) && views[after[j].key] == (KeptView {
                        view: after[j].view,
                        last_used: after[j].last_used,
                    }) by {
                        assert(room.contains_key(before[j].key));
                        if j < i {
                            assert(before[j].key != before[i as int].key);
                        }
                        if i < j {
                            assert(before[i as int].key != before[j].key);
                        }
                    }
                    assert forall|k: SurfaceKey| #[trigger] views.contains_key(
                        k,
                    ) implies exists|j: int|
                        0 <= j < after.len() && #[trigger] after[j].key == k by {
                        if k == key {
                            assert(after[i as int].key == k);
                        } else {
                            assert(room.contains_key(k));
                            let j = choose|j: int|
                                0 <= j < before.len() && #[trigger] before[j].key == k;
                            assert(after[j].key == k);
                        }
                    }
                    lemma_same_views(after, views);
                }
            },
            None => {
                self.entries.push(entry);
                assert(self.entries@.drop_last() =~= before);
            },
        }
        assert(makes_room(old(self)@, room));
    }
}

/// What keeps a frame from being shown for good.
pub enum PresentFault {
    /// The wait for a back buffer failed.
    WaitFailed,
    /// The wait ended with a status that means nothing.
    UnexpectedWait(u32),
    /// The swap chain names a back buffer that has no output view.
    InvalidBackBuffer(usize),
    /// The swap chain refused the frame.
    PresentFailed(String),
}

/// How a fault is reported.
pub fn describe_present_fault(fault: &PresentFault) -> (text: String)
    ensures
        text@ == (match *fault {
            PresentFault::WaitFailed => "Waiting for the DXGI frame-latency object failed."@,
            PresentFault::UnexpectedWait(status) =>
                "DXGI returned an unexpected wait status: "@ + "0x"@ + hexadecimal(
                status as nat,
                8,
            ) + "."@,
            PresentFault::InvalidBackBuffer(index) =>
                "Swap chain returned invalid back-buffer index "@ + decimal(index as nat) + "."@,
            PresentFault::PresentFailed(reason) => "Could not present the GPU-converted frame: "@
                + reason@,
        }),
{
    match fault {
        PresentFault::WaitFailed => String::from_str(
            "Waiting for the DXGI frame-latency object failed.",
        ),
        PresentFault::UnexpectedWait(status) => {
            let mut text = String::from_str("DXGI returned an unexpected wait status: ");
            push_status(&mut text, *status);
            text.append(".");
            text
        },
        PresentFault::InvalidBackBuffer(index) => {
            let mut text = String::from_str("Swap chain returned invalid back-buffer index ");
            push_decimal(&mut text, *index as u64);
            text.append(".");
            text
        },
        PresentFault::PresentFailed(reason) => {
            let mut text = String::from_str("Could not present the GPU-converted frame: ");
            text.append(reason.as_str());
            text
        },
    }
}

/// What is kept ready for frames of one size.
pub struct Processor<V> {
    pub input_width: u32,
    pub input_height: u32,
    /// How many back buffers have an output view.
    pub output_views: u32,
    pub views: InputViews<V>,
}

/// What a presenter waits for.
#[derive(Clone, Copy, Debug, PartialEq, Eq, Structural)]
pub enum PresentPhase {
    /// The next frame.
    Frame,
    /// A free back buffer.
    Wait,
    /// The surface of the frame.
    Surface,
    /// The size of the surface.
    Describe(SurfaceKey),
    /// A video processor for that size.
    Rebuild { key: SurfaceKey, width: u32, height: u32 },
    /// A view of the surface.
    CreateView(SurfaceKey),
    /// The current back buffer.
    BackBuffer(SurfaceKey),
    /// The conversion into the back buffer.
    Convert,
    /// The answer of the swap chain.
    Show,
}

/// What came of the last action.
pub enum PresentEvent<V> {
    /// There is a frame.
    Frame,
    /// The wait ended with that status.
    Waited(u32),
    /// The surface of the frame.
    Surface(SurfaceKey),
    /// The size of the surface.
    Described { width: u32, height: u32 },
    /// The video processor was made.
    Rebuilt,
    /// The view of the surface was made.
    ViewCreated(V),
    /// The current back buffer.
    BackBuffer(u32),
    /// The frame was converted.
    Converted,
    /// The swap chain answered with that status, and that text.
    Shown { status: i32, text: String },
}

/// What to do next with a frame.
pub enum PresentAction {
    /// Wait for a back buffer, for at most 100 milliseconds.
    Wait,
    /// Get the surface of the frame.
    GetSurface,
    /// Get the size of the surface.
    Describe,
    /// Make a video processor.
    Rebuild(VideoProcessorPlan),
    /// Make a view of the surface.
    CreateView(SurfaceKey),
    /// Get the current back buffer.
    GetBackBuffer,
    /// Convert the surface, by the view that is kept of it, into a back buffer.
    Convert { key: SurfaceKey, buffer: usize },
    /// Hand the back buffer to the swap chain, without waiting.
    Show,
    /// The frame is done with.
    Done(FrameOutcome),
    /// The frame cannot be shown, nor any after it.
    Fail(PresentFault),
    /// The event does not answer the last action.
    Unexpected,
}

/// The state of a presenter.
pub struct Presenter<V> {
    pub output_width: u32,
    pub output_height: u32,
    pub buffer_count: u32,
    pub stretch_to_fill: bool,
    pub processor: Option<Processor<V>>,
    pub phase: PresentPhase,
}

impl<V> Presenter<V> {
    /// Whether the times of use of the kept views tell the order of use.
    pub open spec fn in_order(&self) -> bool {
        self.processor matches Some(processor) ==> processor.views.in_order()
    }

    /// Whether a use of a kept view can still be told from those before it.
    pub open spec fn time_left(&self) -> bool {
        self.processor matches Some(processor) ==> processor.views.epoch() < u64::MAX
    }

    /// The views that are kept are consistent, and they are there once a surface
    /// is to be viewed or converted.
    pub open spec fn wf(&self) -> bool {
        &&& self.processor matches Some(processor) ==> processor.views.wf()
        &&& self.phase is CreateView ==> self.processor is Some
        &&& self.phase matches PresentPhase::BackBuffer(key) ==> self.processor is Some
            && self.processor->0.views@.contains_key(key)
    }

    /// A presenter on a swap chain.
    pub fn new(
        output_width: u32,
        output_height: u32,
        buffer_count: u32,
        stretch_to_fill: bool,
    ) -> (presenter: Self)
        ensures
            presenter.wf(),
            presenter == (Presenter::<V> {
                output_width,
                output_height,
                buffer_count,
                stretch_to_fill,
                processor: None,
                phase: PresentPhase::Frame,
            }),
    {
        Presenter {
            output_width,
            output_height,
            buffer_count,
            stretch_to_fill,
            processor: None,
            phase: PresentPhase::Frame,
        }
    }

    /// Gives up what is kept ready, since frames of another format follow.
    pub fn format_changed(&mut self)
        ensures
            *final(self) == (Presenter {
                processor: None::<Processor<V>>,
                phase: PresentPhase::Frame,
                ..*old(self)
            }),
            final(self).wf(),
    {
        self.processor = None;
        self.phase = PresentPhase::Frame;
    }

    /// Whether a surface of that size needs another video processor.
    pub open spec fn needs_rebuild(&self, width: u32, height: u32) -> bool {
        match self.processor {
            None => true,
            Some(processor) => processor.input_width != width || processor.input_height != height,
        }
    }

    /// The step from `self` to `next` that an event leads to.
    pub open spec fn goes(&self, event: PresentEvent<V>, next: Self, action: PresentAction) -> bool {
        match (self.phase, event) {
            (PresentPhase::Frame, PresentEvent::Frame) => {
                &&& action == PresentAction::Wait
                &&& next == (Presenter { phase: PresentPhase::Wait, ..*self })
            },
            (PresentPhase::Wait, PresentEvent::Waited(status)) => if status == WAIT_SIGNALLED {
                &&& action == PresentAction::GetSurface
                &&& next == (Presenter { phase: PresentPhase::Surface, ..*self })
            } else {
                &&& action == (if status == WAIT_TIMED_OUT {
                    PresentAction::Done(FrameOutcome::FrameLatency)
                } else if status == WAIT_BROKEN {
                    PresentAction::Fail(PresentFault::WaitFailed)
                } else {
                    PresentAction::Fail(PresentFault::UnexpectedWait(status))
                })
                &&& next == (Presenter { phase: PresentPhase::Frame, ..*self })
            },
            (PresentPhase::Surface, PresentEvent::Surface(key)) => match self.processor {
                None => {
                    &&& action == PresentAction::Describe
                    &&& next == (Presenter { phase: PresentPhase::Describe(key), ..*self })
                },
                Some(processor) => {
                    &&& next.processor matches Some(after) && {
                        &&& after.views.epoch() == next_epoch(processor.views.epoch())
                        &&& after == (Processor { views: after.views, ..processor })
                        &&& if processor.views@.contains_key(key) {
                            &&& after.views@ == processor.views@.insert(
                                key,
                                KeptView {
                                    view: processor.views@[key].view,
                                    last_used: after.views.epoch(),
                                },
                            )
                            &&& action == PresentAction::GetBackBuffer
                            &&& next.phase == PresentPhase::BackBuffer(key)
                        } else {
                            &&& after.views@ == processor.views@
                            &&& action == PresentAction::Describe
                            &&& next.phase == PresentPhase::Describe(key)
                        }
                    }
                    &&& next == (Presenter {
                        processor: next.processor,
                        phase: next.phase,
                        ..*self
                    })
                },
            },
            (
                PresentPhase::Describe(key),
                PresentEvent::Described { width, height },
            ) => if self.needs_rebuild(width, height) {
                &&& action matches PresentAction::Rebuild(plan) && plan == (VideoProcessorPlan {
                    frame_rate_numerator: 60,
                    frame_rate_denominator: 1,
                    input_width: width,
                    input_height: height,
                    output_width: self.output_width,
                    output_height: self.output_height,
                    source: Rect {
                        left: 0,
                        top: 0,
                        right: signed(width) as i32,
                        bottom: signed(height) as i32,
                    },
                    destination: destination(
                        width,
                        height,
                        self.output_width,
                        self.output_height,
                        self.stretch_to_fill,
                    ),
                    output_target: Rect {
                        left: 0,
                        top: 0,
                        right: signed(self.output_width) as i32,
                        bottom: signed(self.output_height) as i32,
                    },
                    buffer_count: self.buffer_count,
                })
                &&& next == (Presenter {
                    phase: PresentPhase::Rebuild { key, width, height },
                    ..*self
                })
            } else {
                &&& action == PresentAction::CreateView(key)
                &&& next == (Presenter { phase: PresentPhase::CreateView(key), ..*self })
            },
            (PresentPhase::Rebuild { key, width, height }, PresentEvent::Rebuilt) => {
                &&& action == PresentAction::CreateView(key)
                &&& next.processor matches Some(processor) && {
                    &&& processor.input_width == width
                    &&& processor.input_height == height
                    &&& processor.output_views == self.buffer_count
                    &&& processor.views@ == Map::<SurfaceKey, KeptView<V>>::empty()
                    &&& processor.views.epoch() == 0
                }
                &&& next == (Presenter {
                    processor: next.processor,
                    phase: PresentPhase::CreateView(key),
                    ..*self
                })
            },
            (PresentPhase::CreateView(key), PresentEvent::ViewCreated(view)) => {
                &&& action == PresentAction::GetBackBuffer
                &&& self.processor matches Some(processor) && next.processor matches Some(after)
                    && {
                    &&& after == (Processor { views: after.views, ..processor })
                    &&& after.views.epoch() == next_epoch(processor.views.epoch())
                    &&& exists|room: Map<SurfaceKey, KeptView<V>>| #[trigger]
                        makes_room(processor.views@, room) && after.views@ == room.insert(
                            key,
                            KeptView { view, last_used: after.views.epoch() },
                        )
                }
                &&& next == (Presenter {
                    processor: next.processor,
                    phase: PresentPhase::BackBuffer(key),
                    ..*self
                })
            },
            (PresentPhase::BackBuffer(key), PresentEvent::BackBuffer(index)) => {
                &&& self.processor matches Some(processor) && if index < processor.output_views {
                    &&& action == (PresentAction::Convert { key, buffer: index as usize })
                    &&& next.phase == PresentPhase::Convert
                } else {
                    &&& action == PresentAction::Fail(
                        PresentFault::InvalidBackBuffer(index as usize),
                    )
                    &&& next.phase == PresentPhase::Frame
                }
                &&& next == (Presenter { phase: next.phase, ..*self })
            },
            (PresentPhase::Convert, PresentEvent::Converted) => {
                &&& action == PresentAction::Show
                &&& next == (Presenter { phase: PresentPhase::Show, ..*self })
            },
            (PresentPhase::Show, PresentEvent::Shown { status, text }) => {
                &&& action == (if status >= 0 {
                    PresentAction::Done(FrameOutcome::Presented)
                } else if status == STATUS_STILL_DRAWING {
                    PresentAction::Done(FrameOutcome::CompositorBusy)
                } else {
                    PresentAction::Fail(PresentFault::PresentFailed(text))
                })
                &&& next == (Presenter { phase: PresentPhase::Frame, ..*self })
            },
            _ => {
                &&& action == PresentAction::Unexpected
                &&& next == *self
            },
        }
    }

    /// Goes on with a frame after an event.
    pub fn present_nv12_sample(&mut self, event: PresentEvent<V>) -> (action: PresentAction)
        requires
            old(self).wf(),
            event matches PresentEvent::Described { width, height } ==> destination_fits(
                width,
                height,
                old(self).output_width,
                old(self).output_height,
                old(self).stretch_to_fill,
            ),
        ensures
            final(self).wf(),
            old(self).goes(event, *final(self), action),
            old(self).in_order() && old(self).time_left() ==> final(self).in_order(),
    {
        let phase = self.phase;
        match (phase, event) {
            (PresentPhase::Frame, PresentEvent::Frame) => {
                self.phase = PresentPhase::Wait;
                PresentAction::Wait
            },
            (PresentPhase::Wait, PresentEvent::Waited(status)) => {
                if status == WAIT_SIGNALLED {
                    self.phase = PresentPhase::Surface;
                    PresentAction::GetSurface
                } else {
                    self.phase = PresentPhase::Frame;
                    if status == WAIT_TIMED_OUT {
                        PresentAction::Done(FrameOutcome::FrameLatency)
                    } else if status == WAIT_BROKEN {
                        PresentAction::Fail(PresentFault::WaitFailed)
                    } else {
                        PresentAction::Fail(PresentFault::UnexpectedWait(status))
                    }
                }
            },
            (PresentPhase::Surface, PresentEvent::Surface(key)) => {
                let hit: bool = match &mut self.processor {
                    None => false,
                    Some(processor) => processor.views.take_cached_input_view(key),
                };
                if hit {
                    self.phase = PresentPhase::BackBuffer(key);
                    PresentAction::GetBackBuffer
                } else {
                    self.phase = PresentPhase::Describe(key);
                    PresentAction::Describe
                }
            },
            (PresentPhase::Describe(key), PresentEvent::Described { width, height }) => {
                let rebuild: bool = match &self.processor {
                    None => true,
                    Some(processor) => processor.input_width != width || processor.input_height
                        != height,
                };
                if rebuild {
                    self.phase = PresentPhase::Rebuild { key, width, height };
                    PresentAction::Rebuild(
                        create_video_processor_resources(
                            width,
                            height,
                            self.output_width,
                            self.output_height,
                            self.buffer_count,
                            self.stretch_to_fill,
                        ),
                    )
                } else {
                    self.phase = PresentPhase::CreateView(key);
                    PresentAction::CreateView(key)
                }
            },
            (PresentPhase::Rebuild { key, width, height }, PresentEvent::Rebuilt) => {
                self.processor =
                Some(
                    Processor {
                        input_width: width,
                        input_height: height,
                        output_views: self.buffer_count,
                        views: InputViews::new(),
                    },
                );
                self.phase = PresentPhase::CreateView(key);
                PresentAction::CreateView(key)
            },
            (PresentPhase::CreateView(key), PresentEvent::ViewCreated(view)) => {
                match &mut self.processor {
                    None => {},
                    Some(processor) => processor.views.create_cached_input_view(key, view),
                }
                self.phase = PresentPhase::BackBuffer(key);
                PresentAction::GetBackBuffer
            },
            (PresentPhase::BackBuffer(key), PresentEvent::BackBuffer(index)) => {
                let output_views: u32 = match &self.processor {
                    None => 0,
                    Some(processor) => processor.output_views,
                };
                if index < output_views {
                    self.phase = PresentPhase::Convert;
                    PresentAction::Convert { key, buffer: index as usize }
                } else {
                    self.phase = PresentPhase::Frame;
                    PresentAction::Fail(PresentFault::InvalidBackBuffer(index as usize))
                }
            },
            (PresentPhase::Convert, PresentEvent::Converted) => {
                self.phase = PresentPhase::Show;
                PresentAction::Show
            },
            (PresentPhase::Show, PresentEvent::Shown { status, text }) => {
                self.phase = PresentPhase::Frame;
                if status >= 0 {
                    PresentAction::Done(FrameOutcome::Presented)
                } else if status == STATUS_STILL_DRAWING {
                    PresentAction::Done(FrameOutcome::CompositorBusy)
                } else {
                    PresentAction::Fail(PresentFault::PresentFailed(text))
                }
            },
            _ => PresentAction::Unexpected,
        }
    }

    /// The view that is kept of a surface.
    pub fn view_of(&self, key: SurfaceKey) -> (view: Option<&V>)
        requires
            self.wf(),
        ensures
            match view {
                Some(view) => self.processor is Some && self.processor->0.views@.contains_key(key)
                    && *view == self.processor->0.views@[key].view,
                None => self.processor is None || !self.processor->0.views@.contains_key(key),
            },
    {
        match &self.processor {
            None => None,
            Some(processor) => processor.views.get(key),
        }
    }
}

/// A view that is used or made is the newest of all.
pub proof fn a_used_view_is_the_newest<V>(views: InputViews<V>, key: SurfaceKey, other: SurfaceKey)
    requires
        views.in_order(),
        views@.contains_key(key),
        views@.contains_key(other),
        views@[key].last_used == views.epoch(),
        other != key,
    ensures
        views@[other].last_used < views@[key].last_used,
{
}

/// The view that makes room is the one that was used least recently: every other
/// one was used after it.
pub proof fn the_least_recently_used_makes_room<V>(
    views: InputViews<V>,
    key: SurfaceKey,
    other: SurfaceKey,
)
    requires
        views.in_order(),
        stalest(views@, key),
        views@.contains_key(other),
        other != key,
    ensures
        views@[key].last_used < views@[other].last_used,
        !stalest(views@, other),
{
}

/// A surface whose view was made is found the next time, without being
/// described or viewed again.
pub proof fn a_view_is_made_once<V>(
    first: Presenter<V>,
    view: V,
    second: Presenter<V>,
    key: SurfaceKey,
    again: Presenter<V>,
    action: PresentAction,
)
    requires
        first.phase == PresentPhase::CreateView(key),
        first.goes(PresentEvent::ViewCreated(view), second, PresentAction::GetBackBuffer),
        (Presenter { phase: PresentPhase::Surface, ..second }).goes(
            PresentEvent::Surface(key),
            again,
            action,
        ),
    ensures
        action == PresentAction::GetBackBuffer,
        again.processor->0.views@[key].view == view,
{
}

/// Every frame ends: where a frame is shown, dropped or fails, the presenter
/// waits for the next one.
pub proof fn a_finished_frame_leaves_no_trace<V>(
    presenter: Presenter<V>,
    event: PresentEvent<V>,
    next: Presenter<V>,
    action: PresentAction,
)
    requires
        presenter.goes(event, next, action),
        action is Done || action is Fail,
    ensures
        next.phase == PresentPhase::Frame,
        next.processor == presenter.processor,
{
}

/// A stretched picture covers the complete output, whatever its own size is; so
/// does a picture of no size, stretched or not.
pub proof fn a_stretched_picture_covers_the_output(
    input_width: u32,
    input_height: u32,
    output_width: u32,
    output_height: u32,
    stretch_to_fill: bool,
)
    requires
        output_width <= i32::MAX,
        output_height <= i32::MAX,
        stretch_to_fill || input_width == 0 || input_height == 0,
    ensures
        destination(input_width, input_height, output_width, output_height, stretch_to_fill) == (
        Rect {
            left: 0,
            top: 0,
            right: output_width as i32,
            bottom: output_height as i32,
        }),
{
}

/// A picture that keeps its proportions is as large as the output allows: one
/// more pixel across or down would leave the output or the proportions. A
/// picture with the proportions of the output fills it.
pub proof fn a_fitted_picture_is_as_large_as_can_be(
    input_width: u32,
    input_height: u32,
    output_width: u32,
    output_height: u32,
)
    requires
        input_width != 0,
        input_height != 0,
        1 <= output_width <= i32::MAX,
        1 <= output_height <= i32::MAX,
    ensures
        ({
            let rect = destination(input_width, input_height, output_width, output_height, false);
            let width = rect.right - rect.left;
            let height = rect.bottom - rect.top;
            &&& output_width * input_height <= output_height * input_width ==> width
                == output_width
            &&& output_width * input_height > output_height * input_width ==> height
                == output_height
            &&& output_width * input_height == output_height * input_width ==> width
                == output_width && height == output_height
        }),
{
    the_picture_stays_inside(input_width, input_height, output_width, output_height, false);
    if output_width * input_height <= output_height * input_width {
        lemma_scaled(
            output_width as int,
            input_height as int,
            input_width as int,
            output_height as int,
        );
    } else {
        lemma_scaled(
            output_height as int,
            input_width as int,
            input_height as int,
            output_width as int,
        );
    }
    if output_width * input_height == output_height * input_width {
        let scaled = output_width * input_height / input_width as int;
        assert(scaled == output_height) by (nonlinear_arith)
            requires
                input_width > 0,
                output_width * input_height == output_height * input_width,
                scaled == output_width * input_height / input_width as int,
        ;
    }
}

/// The signed number with the bits of `n` is `n`, or `n` less 2^32, whichever
/// fits 32 bits with a sign.
pub proof fn signed_keeps_the_bits(n: u32)
    ensures
        i32::MIN <= signed(n) <= i32::MAX,
        signed(n) == n || signed(n) == n - 0x1_0000_0000,
{
}

/// Of a cache that is not full everything stays; of a full one all but a single
/// view, which no other was used before.
pub proof fn at_most_one_view_makes_room<V>(
    views: Map<SurfaceKey, KeptView<V>>,
    room: Map<SurfaceKey, KeptView<V>>,
)
    requires
        makes_room(views, room),
        views.dom().finite(),
    ensures
        views.dom().len() < 16 ==> room == views,
        views.dom().len() >= 16 ==> exists|gone: SurfaceKey| #[trigger]
            views.contains_key(gone) && !room.contains_key(gone) && forall|key: SurfaceKey|
                #![trigger room.contains_key(key)]
                #![trigger views.contains_key(key)]
                {
                    &&& room.contains_key(key) <==> views.contains_key(key) && key != gone
                    &&& views.contains_key(key) ==> views[gone].last_used <= views[key].last_used
                    &&& room.contains_key(key) ==> room[key] == views[key]
                },
{
    if views.dom().len() >= 16 {
        let gone = choose|gone: SurfaceKey| #[trigger]
            stalest(views, gone) && room == views.remove(gone);
        assert(views.contains_key(gone) && !room.contains_key(gone));
    }
}

/// Time goes on by one with every use, and starts over only at its end.
pub proof fn time_goes_on(epoch: u64)
    ensures
        epoch < u64::MAX ==> next_epoch(epoch) == epoch + 1,
        epoch == u64::MAX ==> next_epoch(epoch) == 0,
{
}

/// A frame waits for a back buffer first. One that comes free in time is used,
/// a wait that runs out of time drops the frame, and any other answer is fatal.
pub proof fn a_frame_waits_for_a_back_buffer<V>(
    presenter: Presenter<V>,
    waiting: Presenter<V>,
    first: PresentAction,
    status: u32,
    next: Presenter<V>,
    action: PresentAction,
)
    requires
        presenter.phase == PresentPhase::Frame,
        presenter.goes(PresentEvent::Frame, waiting, first),
        waiting.goes(PresentEvent::Waited(status), next, action),
    ensures
        first == PresentAction::Wait,
        status == 0 <==> action == PresentAction::GetSurface,
        status == 258 <==> action == PresentAction::Done(FrameOutcome::FrameLatency),
        status != 0 && status != 258 <==> action is Fail,
        status == 0xFFFF_FFFF <==> action == PresentAction::Fail(PresentFault::WaitFailed),
        next.processor == presenter.processor,
{
}

/// A surface whose view is kept is converted at once, by that view. Any other
/// one is described first, and nothing that is kept is lost.
pub proof fn a_surface_is_looked_up<V>(
    presenter: Presenter<V>,
    key: SurfaceKey,
    next: Presenter<V>,
    action: PresentAction,
)
    requires
        presenter.phase == PresentPhase::Surface,
        presenter.goes(PresentEvent::Surface(key), next, action),
    ensures
        ({
            let kept = presenter.processor matches Some(processor)
                && processor.views@.contains_key(key);
            &&& action == (if kept {
                PresentAction::GetBackBuffer
            } else {
                PresentAction::Describe
            })
            &&& next.processor is Some <==> presenter.processor is Some
            &&& forall|other: SurfaceKey|
                presenter.processor is Some ==> (#[trigger] next.processor->0.views@.contains_key(
                    other,
                ) <==> presenter.processor->0.views@.contains_key(other))
            &&& forall|other: SurfaceKey|
                presenter.processor is Some
                    && #[trigger] presenter.processor->0.views@.contains_key(other)
                    ==> next.processor->0.views@[other].view
                    == presenter.processor->0.views@[other].view
        }),
{
}

/// A video processor is made anew exactly where there is none for frames of that
/// size; it is made for that size, the whole picture and the whole output, and
/// then nothing of the old one is kept.
pub proof fn a_processor_fits_its_frames<V>(
    presenter: Presenter<V>,
    key: SurfaceKey,
    width: u32,
    height: u32,
    described: Presenter<V>,
    action: PresentAction,
    rebuilt: Presenter<V>,
    then: PresentAction,
)
    requires
        presenter.phase == PresentPhase::Describe(key),
        presenter.goes(PresentEvent::Described { width, height }, described, action),
        described.goes(PresentEvent::Rebuilt, rebuilt, then),
        width <= i32::MAX,
        height <= i32::MAX,
        presenter.output_width <= i32::MAX,
        presenter.output_height <= i32::MAX,
    ensures
        ({
            let fits = presenter.processor matches Some(processor) && processor.input_width
                == width && processor.input_height == height;
            &&& fits ==> action == PresentAction::CreateView(key) && described.processor
                == presenter.processor
            &&& !fits ==> {
                &&& action matches PresentAction::Rebuild(plan) && {
                    &&& plan.input_width == width && plan.input_height == height
                    &&& plan.output_width == presenter.output_width
                    &&& plan.output_height == presenter.output_height
                    &&& plan.source == (Rect {
                        left: 0,
                        top: 0,
                        right: width as i32,
                        bottom: height as i32,
                    })
                    &&& plan.output_target == (Rect {
                        left: 0,
                        top: 0,
                        right: presenter.output_width as i32,
                        bottom: presenter.output_height as i32,
                    })
                    &&& plan.destination == destination(
                        width,
                        height,
                        presenter.output_width,
                        presenter.output_height,
                        presenter.stretch_to_fill,
                    )
                    &&& plan.buffer_count == presenter.buffer_count
                }
                &&& then == PresentAction::CreateView(key)
                &&& rebuilt.processor matches Some(processor) && {
                    &&& processor.input_width == width && processor.input_height == height
                    &&& processor.output_views == presenter.buffer_count
                    &&& forall|other: SurfaceKey| !#[trigger] processor.views@.contains_key(other)
                }
            }
        }),
{
}

/// A surface goes into the current back buffer, where that has an output view,
/// and the frame ends by the answer of the swap chain: shown, dropped by a busy
/// compositor, or refused for good.
pub proof fn a_frame_ends_by_its_answer<V>(
    presenter: Presenter<V>,
    key: SurfaceKey,
    index: u32,
    converting: Presenter<V>,
    convert: PresentAction,
    converted: Presenter<V>,
    show: PresentAction,
    status: i32,
    text: String,
    next: Presenter<V>,
    action: PresentAction,
)
    requires
        presenter.wf(),
        presenter.phase == PresentPhase::BackBuffer(key),
        index < presenter.processor->0.output_views,
        presenter.goes(PresentEvent::BackBuffer(index), converting, convert),
        converting.goes(PresentEvent::Converted, converted, show),
        converted.goes(PresentEvent::Shown { status, text }, next, action),
    ensures
        convert == (PresentAction::Convert { key, buffer: index as usize }),
        show == PresentAction::Show,
        status >= 0 <==> action == PresentAction::Done(FrameOutcome::Presented),
        status == -2005270518 <==> action == PresentAction::Done(FrameOutcome::CompositorBusy),
        status < 0 && status != -2005270518 <==> action == PresentAction::Fail(
            PresentFault::PresentFailed(text),
        ),
        next.phase == PresentPhase::Frame,
        next.processor == presenter.processor,
{
}

/// A back buffer without an output view is never converted into.
pub proof fn an_unknown_back_buffer_is_refused<V>(
    presenter: Presenter<V>,
    key: SurfaceKey,
    index: u32,
    next: Presenter<V>,
    action: PresentAction,
)
    requires
        presenter.wf(),
        presenter.phase == PresentPhase::BackBuffer(key),
        index >= presenter.processor->0.output_views,
        presenter.goes(PresentEvent::BackBuffer(index), next, action),
    ensures
        action == PresentAction::Fail(PresentFault::InvalidBackBuffer(index as usize)),
{
}

} // verus!
