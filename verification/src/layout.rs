//! Where the native window's controls go when the window is resized.
//!
//! The window is laid out in pixels with 32-bit integers, and the release
//! build lets that arithmetic wrap: the positions and sizes below are those
//! of two's-complement arithmetic on 32 bits, for every window size.

use vstd::prelude::*;

verus! {

/// 2^32.
pub open spec fn two_pow_32() -> int {
    0x1_0000_0000
}

/// `x` as a 32-bit signed integer: the value in `[-2^31, 2^31)` that is
/// congruent to `x` modulo 2^32.
pub open spec fn wrap_i32(x: int) -> int {
    ((x + 0x8000_0000) % two_pow_32()) - 0x8000_0000
}

/// `x` as a 32-bit unsigned integer: the value in `[0, 2^32)` that is
/// congruent to `x` modulo 2^32.
pub open spec fn wrap_u32(x: int) -> int {
    x % two_pow_32()
}

/// Division by four, rounding toward zero.
pub open spec fn quarter(x: int) -> int {
    if x >= 0 {
        x / 4
    } else {
        -((-x) / 4)
    }
}

/// The row of the four cleaning buttons: 45 pixels above the bottom edge.
pub open spec fn button_row_y(height: int) -> int {
    wrap_i32(height - 45)
}

/// The width of each cleaning button: a quarter of what is left of the
/// window's width once the two margins and the three gaps are taken off.
pub open spec fn button_width(width: int) -> int {
    quarter(wrap_i32(width - 50))
}

/// The left edge of the cleaning button `k` (0 to 3): one margin, then `k`
/// buttons and `k` gaps.
pub open spec fn button_x(width: int, k: int) -> int {
    10 + k * (button_width(width) + 10)
}

/// The height left to the log between its top (50) and the buttons' row,
/// less a margin.
pub open spec fn log_height(height: int) -> int {
    wrap_i32(height - 105)
}

/// Where a control goes, and how large it is.
#[derive(Clone, Copy, Debug, PartialEq, Eq, Structural)]
pub struct Placement {
    pub x: i32,
    pub y: i32,
    pub width: u32,
    pub height: u32,
}

/// Where each control of the window goes.
#[derive(Clone, Copy, Debug, PartialEq, Eq, Structural)]
pub struct Layout {
    /// The button that opens the project's page.
    pub link_button: Placement,
    /// The button that cleans the video extensions.
    pub video_button: Placement,
    /// The button that cleans the audio extensions.
    pub audio_button: Placement,
    /// The button that cleans the playlist extensions.
    pub playlist_button: Placement,
    /// The button that cleans all three groups.
    pub all_button: Placement,
    /// The log, when there is room for it; otherwise it keeps its place.
    pub log_view: Option<Placement>,
}

/// A cleaning button of the bottom row.
pub open spec fn is_row_button(p: Placement, width: int, height: int, k: int) -> bool {
    &&& p.x == button_x(width, k)
    &&& p.y == button_row_y(height)
    &&& p.width == wrap_u32(button_width(width))
    &&& p.height == 35
}

proof fn lemma_wrap_i32_is(x: int, r: int)
    requires
        -0x8000_0000 <= r < 0x8000_0000,
        (x - r) % two_pow_32() == 0,
    ensures
        wrap_i32(x) == r,
{
    let m = two_pow_32();
    let k = (x - r) / m;
    vstd::arithmetic::div_mod::lemma_fundamental_div_mod(x - r, m);
    assert(x + 0x8000_0000 == m * k + (r + 0x8000_0000));
    vstd::arithmetic::div_mod::lemma_mod_multiples_vanish(k, r + 0x8000_0000, m);
    vstd::arithmetic::div_mod::lemma_small_mod((r + 0x8000_0000) as nat, m as nat);
}

proof fn lemma_wrap_u32_is(x: int, r: int)
    requires
        0 <= r < 0x1_0000_0000,
        (x - r) % two_pow_32() == 0,
    ensures
        wrap_u32(x) == r,
{
    let m = two_pow_32();
    let k = (x - r) / m;
    vstd::arithmetic::div_mod::lemma_fundamental_div_mod(x - r, m);
    vstd::arithmetic::div_mod::lemma_mod_multiples_vanish(k, r, m);
    vstd::arithmetic::div_mod::lemma_small_mod(r as nat, m as nat);
}

/// In a window from 50 to 2^31 - 1 pixels wide, the four cleaning buttons
/// have a width of at least zero and, with their gaps and the two margins,
/// fit inside the window.
pub proof fn law_buttons_fit(width: int)
    requires
        50 <= width < 0x8000_0000,
    ensures
        button_width(width) >= 0,
        button_x(width, 3) + button_width(width) + 10 <= width,
{
    lemma_wrap_i32_is(width - 50, width - 50);
    assert(button_width(width) == (width - 50) / 4);
}

impl Layout {
    /// The places of the controls in a window whose client area is `width`
    /// by `height` pixels; `None` when either is zero (the window is
    /// minimised and nothing moves).
    pub fn for_window(width: u32, height: u32) -> (res: Option<Layout>)
        ensures
            res is None <==> (width == 0 || height == 0),
            res matches Some(l) ==> {
                &&& l.link_button == (Placement { x: 10, y: 10, width: 100, height: 30 })
                &&& is_row_button(l.video_button, width as int, height as int, 0)
                &&& is_row_button(l.audio_button, width as int, height as int, 1)
                &&& is_row_button(l.playlist_button, width as int, height as int, 2)
                &&& is_row_button(l.all_button, width as int, height as int, 3)
                &&& (l.log_view is Some <==> log_height(height as int) > 0)
                &&& l.log_view matches Some(p) ==> {
                    &&& p.x == 10
                    &&& p.y == 50
                    &&& p.width == wrap_u32(width - 20)
                    &&& p.height == log_height(height as int)
                }
            },
            res matches Some(l) ==> (height < 0x8000_0000 ==> {
                &&& l.video_button.y + 35 + 10 == height
                &&& l.audio_button.y == l.video_button.y
                &&& l.playlist_button.y == l.video_button.y
                &&& l.all_button.y == l.video_button.y
                &&& (l.log_view is Some <==> height > 105)
                &&& l.log_view matches Some(p) ==> p.height + 105 == height
            }),
            res matches Some(l) ==> (50 <= width < 0x8000_0000 ==> {
                &&& l.video_button.width == (width - 50) / 4
                &&& l.audio_button.width == l.video_button.width
                &&& l.playlist_button.width == l.video_button.width
                &&& l.all_button.width == l.video_button.width
                &&& l.video_button.x == 10
                &&& l.audio_button.x == l.video_button.x + l.video_button.width + 10
                &&& l.playlist_button.x == l.audio_button.x + l.audio_button.width + 10
                &&& l.all_button.x == l.playlist_button.x + l.playlist_button.width + 10
                &&& l.all_button.x + l.all_button.width + 10 <= width
            }),
            res matches Some(l) ==> (20 <= width ==> (l.log_view matches Some(p) ==> p.width + 20 == width)),
    {
        if width == 0 || height == 0 {
            return None;
        }
        let btn_h: i32 = 35;
        let spacing: i32 = 10;
        let margin: i32 = 10;
        let h: i32 = height as i32;
        let w: i32 = width as i32;
        proof {
            assert(height > 0x7fff_ffff ==> (height as i32) as int == height - 0x1_0000_0000) by (bit_vector);
            assert(height <= 0x7fff_ffff ==> (height as i32) as int == height as int) by (bit_vector);
            assert(width > 0x7fff_ffff ==> (width as i32) as int == width - 0x1_0000_0000) by (bit_vector);
            assert(width <= 0x7fff_ffff ==> (width as i32) as int == width as int) by (bit_vector);
        }
        let btn_y = h.wrapping_sub(btn_h).wrapping_sub(margin);
        proof {
            lemma_wrap_i32_is(height - 45, btn_y as int);
        }
        let total_spacing = spacing * 3;
        let available_w = w.wrapping_sub(margin * 2).wrapping_sub(total_spacing);
        proof {
            lemma_wrap_i32_is(width - 50, available_w as int);
        }
        let btn_w = available_w / 4;
        assert(btn_w == button_width(width as int));
        let btn_w_u: u32 = btn_w as u32;
        proof {
            assert(btn_w < 0 ==> (btn_w as u32) as int == btn_w + 0x1_0000_0000) by (bit_vector);
            assert(btn_w >= 0 ==> (btn_w as u32) as int == btn_w as int) by (bit_vector);
            lemma_wrap_u32_is(btn_w as int, btn_w_u as int);
        }
        let video_button = Placement { x: margin, y: btn_y, width: btn_w_u, height: btn_h as u32 };
        let audio_button = Placement { x: margin + btn_w + spacing, y: btn_y, width: btn_w_u, height: btn_h as u32 };
        let playlist_button = Placement {
            x: margin + (btn_w * 2) + (spacing * 2),
            y: btn_y,
            width: btn_w_u,
            height: btn_h as u32,
        };
        let all_button = Placement {
            x: margin + (btn_w * 3) + (spacing * 3),
            y: btn_y,
            width: btn_w_u,
            height: btn_h as u32,
        };
        let log_y: i32 = 50;
        let log_h = btn_y.wrapping_sub(log_y).wrapping_sub(margin);
        proof {
            lemma_wrap_i32_is(height - 105, log_h as int);
        }
        let log_view = if log_h > 0 {
            let log_w = width.wrapping_sub(margin as u32 * 2);
            proof {
                lemma_wrap_u32_is(width - 20, log_w as int);
            }
            Some(Placement { x: margin, y: log_y, width: log_w, height: log_h as u32 })
        } else {
            None
        };
        proof {
            if height < 0x8000_0000 {
                crate::laws::law_row_follows_bottom_edge(height as int);
            }
            if 50 <= width < 0x8000_0000 {
                crate::laws::law_row_spans_width(width as int, 0);
                crate::laws::law_row_spans_width(width as int, 1);
                crate::laws::law_row_spans_width(width as int, 2);
                law_buttons_fit(width as int);
            }
            if 20 <= width {
                vstd::arithmetic::div_mod::lemma_small_mod((width - 20) as nat, 0x1_0000_0000nat);
            }
        }
        Some(Layout {
            link_button: Placement { x: 10, y: 10, width: 100, height: 30 },
            video_button,
            audio_button,
            playlist_button,
            all_button,
            log_view,
        })
    }
}

} // verus!
