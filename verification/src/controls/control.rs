// The base UI control: position, size, visibility, colours, border, visual
// effects and children, with a redraw flag that every visible change sets.
//
// The blending rate is a 32-bit float; the control keeps its bit pattern
// (`f32::to_bits`) and clamps it to 0.0..=1.0 as `f32::clamp` does.

use vstd::prelude::*;
use crate::controls::types::{BlendMode, Color, Point, Rectangle, Size};

verus! {

/// The bit pattern of the float 1.0.
pub const ONE_BITS: u32 = 0x3F80_0000;

/// `f32::clamp(x, 0.0, 1.0)` on the bit pattern of `x`: NaN stays NaN, a
/// negative number other than -0.0 becomes 0.0, a number above 1.0 becomes
/// 1.0, anything else stays.
pub open spec fn clamp_unit_bits(bits: u32) -> u32 {
    let magnitude = bits % 0x8000_0000;
    if magnitude > 0x7F80_0000 {
        bits
    } else if bits >= 0x8000_0000 && magnitude != 0 {
        0
    } else if bits < 0x8000_0000 && bits > ONE_BITS {
        ONE_BITS
    } else {
        bits
    }
}

/// The state of a control as plain values, children and hint aside.
#[derive(Debug, Clone, Copy, PartialEq, Eq, Structural)]
pub struct ControlState {
    pub location: Point,
    pub size: Size,
    pub visible: bool,
    pub enabled: bool,
    pub back_color: Color,
    pub fore_color: Color,
    pub border_color: Color,
    pub border: bool,
    pub gray_scale: bool,
    pub blending: bool,
    /// Bit pattern of the blending rate
    pub blending_rate: u32,
    pub blend_mode: BlendMode,
    pub texture_valid: bool,
    pub needs_redraw: bool,
    pub draw_control_texture: bool,
}

/// The state after an invalidation: redraw, and the cached texture is stale.
pub open spec fn invalidated(s: ControlState) -> ControlState {
    ControlState { needs_redraw: true, texture_valid: false, ..s }
}

/// A UI control.
#[derive(Debug)]
pub struct MirControl {
    location: Point,
    size: Size,
    visible: bool,
    enabled: bool,
    back_color: Color,
    fore_color: Color,
    border_color: Color,
    border: bool,
    gray_scale: bool,
    blending: bool,
    blending_rate: u32,
    blend_mode: BlendMode,
    children: Vec<MirControl>,
    texture_valid: bool,
    needs_redraw: bool,
    hint: String,
    draw_control_texture: bool,
}

impl View for MirControl {
    type V = ControlState;

    closed spec fn view(&self) -> ControlState {
        ControlState {
            location: self.location,
            size: self.size,
            visible: self.visible,
            enabled: self.enabled,
            back_color: self.back_color,
            fore_color: self.fore_color,
            border_color: self.border_color,
            border: self.border,
            gray_scale: self.gray_scale,
            blending: self.blending,
            blending_rate: self.blending_rate,
            blend_mode: self.blend_mode,
            texture_valid: self.texture_valid,
            needs_redraw: self.needs_redraw,
            draw_control_texture: self.draw_control_texture,
        }
    }
}

impl MirControl {
    /// The children, in the order they were added.
    pub closed spec fn spec_children(self) -> Seq<MirControl> {
        self.children@
    }

    /// The tooltip text.
    pub closed spec fn spec_hint(self) -> Seq<char> {
        self.hint@
    }

    /// At the origin, of no size, visible and enabled, transparent on white
    /// text with a black border colour, no border and no effects, fully
    /// opaque, no blend mode, no children, to be drawn.
    pub fn new() -> (c: Self)
        ensures
            c@ == (ControlState {
                location: Point { x: 0, y: 0 },
                size: Size { width: 0, height: 0 },
                visible: true,
                enabled: true,
                back_color: Color::spec_argb(0, 0, 0, 0),
                fore_color: Color::spec_rgb(255, 255, 255),
                border_color: Color::spec_rgb(0, 0, 0),
                border: false,
                gray_scale: false,
                blending: false,
                blending_rate: ONE_BITS,
                blend_mode: BlendMode::NoBlend,
                texture_valid: false,
                needs_redraw: true,
                draw_control_texture: false,
            }),
            c.spec_children().len() == 0,
            c.spec_hint().len() == 0,
    {
        MirControl {
            location: Point::new(0, 0),
            size: Size::zero(),
            visible: true,
            enabled: true,
            back_color: Color::transparent(),
            fore_color: Color::white(),
            border_color: Color::black(),
            border: false,
            gray_scale: false,
            blending: false,
            blending_rate: ONE_BITS,
            blend_mode: BlendMode::default(),
            children: Vec::new(),
            texture_valid: false,
            needs_redraw: true,
            hint: String::new(),
            draw_control_texture: false,
        }
    }

    pub fn with_location(self, location: Point) -> (c: Self)
        ensures
            c@ == (ControlState { location, ..self@ }),
            c.spec_children() == self.spec_children(),
            c.spec_hint() == self.spec_hint(),
    {
        let mut c = self;
        c.location = location;
        c
    }

    pub fn with_size(self, size: Size) -> (c: Self)
        ensures
            c@ == (ControlState { size, ..self@ }),
            c.spec_children() == self.spec_children(),
            c.spec_hint() == self.spec_hint(),
    {
        let mut c = self;
        c.size = size;
        c
    }

    pub fn with_back_color(self, color: Color) -> (c: Self)
        ensures
            c@ == (ControlState { back_color: color, ..self@ }),
            c.spec_children() == self.spec_children(),
            c.spec_hint() == self.spec_hint(),
    {
        let mut c = self;
        c.back_color = color;
        c
    }

    pub fn with_fore_color(self, color: Color) -> (c: Self)
        ensures
            c@ == (ControlState { fore_color: color, ..self@ }),
            c.spec_children() == self.spec_children(),
            c.spec_hint() == self.spec_hint(),
    {
        let mut c = self;
        c.fore_color = color;
        c
    }

    pub fn with_visible(self, visible: bool) -> (c: Self)
        ensures
            c@ == (ControlState { visible, ..self@ }),
            c.spec_children() == self.spec_children(),
            c.spec_hint() == self.spec_hint(),
    {
        let mut c = self;
        c.visible = visible;
        c
    }

    pub fn with_enabled(self, enabled: bool) -> (c: Self)
        ensures
            c@ == (ControlState { enabled, ..self@ }),
            c.spec_children() == self.spec_children(),
            c.spec_hint() == self.spec_hint(),
    {
        let mut c = self;
        c.enabled = enabled;
        c
    }

    pub fn with_border(self, border: bool) -> (c: Self)
        ensures
            c@ == (ControlState { border, ..self@ }),
            c.spec_children() == self.spec_children(),
            c.spec_hint() == self.spec_hint(),
    {
        let mut c = self;
        c.border = border;
        c
    }

    pub fn hint(&self) -> (h: &str)
        ensures
            h@ == self.spec_hint(),
    {
        self.hint.as_str()
    }

    pub fn set_hint(&mut self, hint: String)
        ensures
            final(self).spec_hint() == hint@,
            final(self)@ == old(self)@,
            final(self).spec_children() == old(self).spec_children(),
    {
        self.hint = hint;
    }

    pub fn draw_control_texture(&self) -> (b: bool)
        ensures
            b == self@.draw_control_texture,
    {
        self.draw_control_texture
    }

    pub fn set_draw_control_texture(&mut self, draw: bool)
        ensures
            final(self)@ == invalidated(ControlState { draw_control_texture: draw, ..old(self)@ }),
            final(self).spec_children() == old(self).spec_children(),
            final(self).spec_hint() == old(self).spec_hint(),
    {
        self.draw_control_texture = draw;
        self.invalidate();
    }

    pub fn children(&self) -> (c: &[MirControl])
        ensures
            c@ == self.spec_children(),
    {
        self.children.as_slice()
    }

    /// The children, to change in place; the rest of the control stays.
    pub fn children_mut(&mut self) -> (c: &mut Vec<MirControl>)
        ensures
            (*c)@ == old(self).spec_children(),
            final(self).spec_children() == (*final(c))@,
            final(self)@ == old(self)@,
            final(self).spec_hint() == old(self).spec_hint(),
    {
        &mut self.children
    }

    /// Adds a child after the others; the control is to be redrawn.
    pub fn add_child(&mut self, child: MirControl)
        ensures
            final(self).spec_children() == old(self).spec_children().push(child),
            final(self)@ == (ControlState { needs_redraw: true, ..old(self)@ }),
            final(self).spec_hint() == old(self).spec_hint(),
    {
        self.children.push(child);
        self.needs_redraw = true;
    }

    /// Removes and returns the child at `index`, if there is one; the
    /// control is then to be redrawn.
    pub fn remove_child(&mut self, index: usize) -> (r: Option<MirControl>)
        ensures
            index < old(self).spec_children().len() ==> r == Some(old(self).spec_children()[index as int])
                && final(self).spec_children() == old(self).spec_children().remove(index as int)
                && final(self)@ == (ControlState { needs_redraw: true, ..old(self)@ }),
            index >= old(self).spec_children().len() ==> r is None && final(self).spec_children()
                == old(self).spec_children() && final(self)@ == old(self)@,
            final(self).spec_hint() == old(self).spec_hint(),
    {
        if index < self.children.len() {
            let child = self.children.remove(index);
            self.needs_redraw = true;
            Some(child)
        } else {
            None
        }
    }

    /// The first child for which `predicate` answers true.
    pub fn find_child<F>(&self, predicate: F) -> (r: Option<&MirControl>)
        where
            F: Fn(&MirControl) -> bool,
        requires
            forall|i: int| 0 <= i < self.spec_children().len() ==> call_requires(predicate, (&self.spec_children()[i],)),
        ensures
            r matches Some(c) ==> exists|i: int|
                0 <= i < self.spec_children().len() && *c == self.spec_children()[i] && call_ensures(
                    predicate,
                    (&self.spec_children()[i],),
                    true,
                ) && forall|j: int| 0 <= j < i ==> call_ensures(predicate, (&self.spec_children()[j],), false),
            r is None ==> forall|j: int|
                0 <= j < self.spec_children().len() ==> call_ensures(predicate, (&self.spec_children()[j],), false),
    {
        let mut i: usize = 0;
        while i < self.children.len()
            invariant
                self.children@ == self.spec_children(),
                i <= self.spec_children().len(),
                forall|k: int| 0 <= k < self.spec_children().len() ==> call_requires(predicate, (&self.spec_children()[k],)),
                forall|j: int| 0 <= j < i ==> call_ensures(predicate, (&self.spec_children()[j],), false),
            decreases self.spec_children().len() - i,
        {
            let child = &self.children[i];
            assert(*child == self.spec_children()[i as int]);
            if predicate(child) {
                assert(call_ensures(predicate, (&self.spec_children()[i as int],), true));
                return Some(child);
            }
            i = i + 1;
        }
        None
    }

    pub fn name(&self) -> (n: &str)
        ensures
            n@ == "MirControl"@,
    {
        "MirControl"
    }

    pub fn location(&self) -> (p: Point)
        ensures
            p == self@.location,
    {
        self.location
    }

    /// Moves the control; a change invalidates it.
    pub fn set_location(&mut self, location: Point)
        ensures
            final(self)@ == if old(self)@.location != location {
                invalidated(ControlState { location, ..old(self)@ })
            } else {
                old(self)@
            },
            final(self).spec_children() == old(self).spec_children(),
            final(self).spec_hint() == old(self).spec_hint(),
    {
        if self.location != location {
            self.location = location;
            self.invalidate();
        }
    }

    pub fn size(&self) -> (s: Size)
        ensures
            s == self@.size,
    {
        self.size
    }

    /// Resizes the control; a change invalidates it.
    pub fn set_size(&mut self, size: Size)
        ensures
            final(self)@ == if old(self)@.size != size {
                invalidated(ControlState { size, ..old(self)@ })
            } else {
                old(self)@
            },
            final(self).spec_children() == old(self).spec_children(),
            final(self).spec_hint() == old(self).spec_hint(),
    {
        if self.size != size {
            self.size = size;
            self.texture_valid = false;
            self.invalidate();
        }
    }

    /// Where the control is drawn: its own location (no parent is tracked).
    pub fn display_location(&self) -> (p: Point)
        ensures
            p == self@.location,
    {
        self.location()
    }

    /// The rectangle the control covers on screen.
    pub fn display_rectangle(&self) -> (r: Rectangle)
        ensures
            r == (Rectangle { x: self@.location.x, y: self@.location.y, width: self@.size.width, height: self@.size.height }),
    {
        Rectangle::from_location_size(self.display_location(), self.size())
    }

    pub fn visible(&self) -> (b: bool)
        ensures
            b == self@.visible,
    {
        self.visible
    }

    /// Shows or hides the control; a change invalidates it.
    pub fn set_visible(&mut self, visible: bool)
        ensures
            final(self)@ == if old(self)@.visible != visible {
                invalidated(ControlState { visible, ..old(self)@ })
            } else {
                old(self)@
            },
            final(self).spec_children() == old(self).spec_children(),
            final(self).spec_hint() == old(self).spec_hint(),
    {
        if self.visible != visible {
            self.visible = visible;
            self.invalidate();
        }
    }

    pub fn enabled(&self) -> (b: bool)
        ensures
            b == self@.enabled,
    {
        self.enabled
    }

    /// Enables or disables the control; a change invalidates it.
    pub fn set_enabled(&mut self, enabled: bool)
        ensures
            final(self)@ == if old(self)@.enabled != enabled {
                invalidated(ControlState { enabled, ..old(self)@ })
            } else {
                old(self)@
            },
            final(self).spec_children() == old(self).spec_children(),
            final(self).spec_hint() == old(self).spec_hint(),
    {
        if self.enabled != enabled {
            self.enabled = enabled;
            self.invalidate();
        }
    }

    /// Whether the control is shown: its own visibility (no parent is tracked).
    pub fn is_really_visible(&self) -> (b: bool)
        ensures
            b == self@.visible,
    {
        self.visible()
    }

    /// Whether the control takes input: its own state (no parent is tracked).
    pub fn is_really_enabled(&self) -> (b: bool)
        ensures
            b == self@.enabled,
    {
        self.enabled()
    }

    pub fn back_color(&self) -> (c: Color)
        ensures
            c == self@.back_color,
    {
        self.back_color
    }

    /// Sets the background; a change invalidates the control.
    pub fn set_back_color(&mut self, color: Color)
        ensures
            final(self)@ == if old(self)@.back_color != color {
                invalidated(ControlState { back_color: color, ..old(self)@ })
            } else {
                old(self)@
            },
            final(self).spec_children() == old(self).spec_children(),
            final(self).spec_hint() == old(self).spec_hint(),
    {
        if self.back_color != color {
            self.back_color = color;
            self.texture_valid = false;
            self.invalidate();
        }
    }

    pub fn fore_color(&self) -> (c: Color)
        ensures
            c == self@.fore_color,
    {
        self.fore_color
    }

    /// Sets the text colour; a change invalidates the control.
    pub fn set_fore_color(&mut self, color: Color)
        ensures
            final(self)@ == if old(self)@.fore_color != color {
                invalidated(ControlState { fore_color: color, ..old(self)@ })
            } else {
                old(self)@
            },
            final(self).spec_children() == old(self).spec_children(),
            final(self).spec_hint() == old(self).spec_hint(),
    {
        if self.fore_color != color {
            self.fore_color = color;
            self.invalidate();
        }
    }

    pub fn border_color(&self) -> (c: Color)
        ensures
            c == self@.border_color,
    {
        self.border_color
    }

    /// Sets the border colour; a change invalidates the control.
    pub fn set_border_color(&mut self, color: Color)
        ensures
            final(self)@ == if old(self)@.border_color != color {
                invalidated(ControlState { border_color: color, ..old(self)@ })
            } else {
                old(self)@
            },
            final(self).spec_children() == old(self).spec_children(),
            final(self).spec_hint() == old(self).spec_hint(),
    {
        if self.border_color != color {
            self.border_color = color;
            self.redraw();
        }
    }

    pub fn border(&self) -> (b: bool)
        ensures
            b == self@.border,
    {
        self.border
    }

    /// Shows or hides the border; a change invalidates the control.
    pub fn set_border(&mut self, border: bool)
        ensures
            final(self)@ == if old(self)@.border != border {
                invalidated(ControlState { border, ..old(self)@ })
            } else {
                old(self)@
            },
            final(self).spec_children() == old(self).spec_children(),
            final(self).spec_hint() == old(self).spec_hint(),
    {
        if self.border != border {
            self.border = border;
            self.redraw();
        }
    }

    pub fn gray_scale(&self) -> (b: bool)
        ensures
            b == self@.gray_scale,
    {
        self.gray_scale
    }

    /// Turns the grey effect on or off and invalidates the control.
    pub fn set_gray_scale(&mut self, gray_scale: bool)
        ensures
            final(self)@ == invalidated(ControlState { gray_scale, ..old(self)@ }),
            final(self).spec_children() == old(self).spec_children(),
            final(self).spec_hint() == old(self).spec_hint(),
    {
        self.gray_scale = gray_scale;
        self.redraw();
    }

    pub fn blending(&self) -> (b: bool)
        ensures
            b == self@.blending,
    {
        self.blending
    }

    /// Turns blending on or off and invalidates the control.
    pub fn set_blending(&mut self, blending: bool)
        ensures
            final(self)@ == invalidated(ControlState { blending, ..old(self)@ }),
            final(self).spec_children() == old(self).spec_children(),
            final(self).spec_hint() == old(self).spec_hint(),
    {
        self.blending = blending;
        self.redraw();
    }

    /// The bit pattern of the blending rate.
    pub fn blending_rate(&self) -> (r: u32)
        ensures
            r == self@.blending_rate,
    {
        self.blending_rate
    }

    /// Sets the blending rate, given as a float's bit pattern, clamped to
    /// 0.0..=1.0, and invalidates the control.
    pub fn set_blending_rate(&mut self, rate: u32)
        ensures
            final(self)@ == invalidated(ControlState { blending_rate: clamp_unit_bits(rate), ..old(self)@ }),
            final(self).spec_children() == old(self).spec_children(),
            final(self).spec_hint() == old(self).spec_hint(),
    {
        self.blending_rate = clamp_unit(rate);
        self.redraw();
    }

    pub fn blend_mode(&self) -> (m: BlendMode)
        ensures
            m == self@.blend_mode,
    {
        self.blend_mode
    }

    /// Sets the blend mode and invalidates the control.
    pub fn set_blend_mode(&mut self, mode: BlendMode)
        ensures
            final(self)@ == invalidated(ControlState { blend_mode: mode, ..old(self)@ }),
            final(self).spec_children() == old(self).spec_children(),
            final(self).spec_hint() == old(self).spec_hint(),
    {
        self.blend_mode = mode;
        self.redraw();
    }

    /// Marks the control for redrawing; its cached texture is stale.
    pub fn invalidate(&mut self)
        ensures
            final(self)@ == invalidated(old(self)@),
            final(self).spec_children() == old(self).spec_children(),
            final(self).spec_hint() == old(self).spec_hint(),
    {
        self.needs_redraw = true;
        self.texture_valid = false;
    }

    /// Same as `invalidate`.
    pub fn redraw(&mut self)
        ensures
            final(self)@ == invalidated(old(self)@),
            final(self).spec_children() == old(self).spec_children(),
            final(self).spec_hint() == old(self).spec_hint(),
    {
        self.invalidate();
    }
}

/// `f32::clamp(x, 0.0, 1.0)` on bit patterns.
pub fn clamp_unit(bits: u32) -> (r: u32)
    ensures
        r == clamp_unit_bits(bits),
{
    let magnitude = bits & 0x7FFF_FFFF;
    assert(magnitude == bits % 0x8000_0000) by (bit_vector)
        requires magnitude == bits & 0x7FFF_FFFF;
    if magnitude > 0x7F80_0000 {
        bits
    } else if bits >= 0x8000_0000 && magnitude != 0 {
        0
    } else if bits < 0x8000_0000 && bits > ONE_BITS {
        ONE_BITS
    } else {
        bits
    }
}

impl Default for MirControl {
    fn default() -> (c: Self)
        ensures
            c@.visible && c@.enabled && c@.needs_redraw,
            c@.location == (Point { x: 0, y: 0 }),
            c@.size == (Size { width: 0, height: 0 }),
            c.spec_children().len() == 0,
    {
        Self::new()
    }
}

/// A clamped rate stays as it is when clamped again.
pub proof fn lemma_clamp_idempotent(bits: u32)
    ensures
        clamp_unit_bits(clamp_unit_bits(bits)) == clamp_unit_bits(bits),
{
}

} // verus!
