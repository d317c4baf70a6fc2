// Shared types for the UI controls: points, sizes, rectangles, colours and
// input enumerations.

use vstd::prelude::*;

verus! {

/// A point in screen or map space.
#[derive(Debug, Clone, Copy, PartialEq, Eq, Structural)]
pub struct Point {
    pub x: i32,
    pub y: i32,
}

impl Point {
    pub fn new(x: i32, y: i32) -> (p: Self)
        ensures
            p.x == x,
            p.y == y,
    {
        Point { x, y }
    }
}

impl core::ops::Add for Point {
    type Output = Point;

    fn add(self, rhs: Point) -> (p: Point) {
        Point { x: self.x + rhs.x, y: self.y + rhs.y }
    }
}

impl vstd::std_specs::ops::AddSpecImpl for Point {
    open spec fn obeys_add_spec() -> bool {
        true
    }

    /// Both coordinates stay within `i32`.
    open spec fn add_req(self, rhs: Point) -> bool {
        i32::MIN <= self.x + rhs.x <= i32::MAX && i32::MIN <= self.y + rhs.y <= i32::MAX
    }

    open spec fn add_spec(self, rhs: Point) -> Point {
        Point { x: (self.x + rhs.x) as i32, y: (self.y + rhs.y) as i32 }
    }
}

impl core::ops::Sub for Point {
    type Output = Point;

    fn sub(self, rhs: Point) -> (p: Point) {
        Point { x: self.x - rhs.x, y: self.y - rhs.y }
    }
}

impl vstd::std_specs::ops::SubSpecImpl for Point {
    open spec fn obeys_sub_spec() -> bool {
        true
    }

    /// Both coordinates stay within `i32`.
    open spec fn sub_req(self, rhs: Point) -> bool {
        i32::MIN <= self.x - rhs.x <= i32::MAX && i32::MIN <= self.y - rhs.y <= i32::MAX
    }

    open spec fn sub_spec(self, rhs: Point) -> Point {
        Point { x: (self.x - rhs.x) as i32, y: (self.y - rhs.y) as i32 }
    }
}

/// An ARGB colour with 8 bits per channel.
#[derive(Debug, Clone, Copy, PartialEq, Eq, Structural)]
pub struct Color {
    alpha: u8,
    red: u8,
    green: u8,
    blue: u8,
}

/// The 32-bit ARGB packing of four channels: alpha in the top byte, blue in the lowest.
pub open spec fn pack_argb(a: u8, r: u8, g: u8, b: u8) -> u32 {
    ((a as u32) << 24u32) | ((r as u32) << 16u32) | ((g as u32) << 8u32) | (b as u32)
}

impl Color {
    pub closed spec fn spec_a(self) -> u8 {
        self.alpha
    }

    pub closed spec fn spec_r(self) -> u8 {
        self.red
    }

    pub closed spec fn spec_g(self) -> u8 {
        self.green
    }

    pub closed spec fn spec_b(self) -> u8 {
        self.blue
    }

    pub fn from_argb(a: u8, r: u8, g: u8, b: u8) -> (c: Self)
        ensures
            c == Color::spec_argb(a, r, g, b),
            c.spec_a() == a,
            c.spec_r() == r,
            c.spec_g() == g,
            c.spec_b() == b,
    {
        Color { alpha: a, red: r, green: g, blue: b }
    }

    pub fn from_rgb(r: u8, g: u8, b: u8) -> (c: Self)
        ensures
            c.spec_a() == 255,
            c.spec_r() == r,
            c.spec_g() == g,
            c.spec_b() == b,
    {
        Self::from_argb(255, r, g, b)
    }

    /// Packs the colour as `0xAARRGGBB`.
    pub fn to_argb(&self) -> (v: u32)
        ensures
            v == pack_argb(self.spec_a(), self.spec_r(), self.spec_g(), self.spec_b()),
    {
        ((self.alpha as u32) << 24u32) | ((self.red as u32) << 16u32) | ((self.green as u32) << 8u32)
            | (self.blue as u32)
    }

    /// Unpacks a colour from `0xAARRGGBB`.
    pub fn from_argb_u32(argb: u32) -> (c: Self)
        ensures
            c.spec_a() == (argb >> 24u32) as u8,
            c.spec_r() == ((argb >> 16u32) & 0xffu32) as u8,
            c.spec_g() == ((argb >> 8u32) & 0xffu32) as u8,
            c.spec_b() == (argb & 0xffu32) as u8,
            pack_argb(c.spec_a(), c.spec_r(), c.spec_g(), c.spec_b()) == argb,
    {
        let a = (argb >> 24u32) as u8;
        let r = ((argb >> 16u32) & 0xffu32) as u8;
        let g = ((argb >> 8u32) & 0xffu32) as u8;
        let b = (argb & 0xffu32) as u8;
        proof {
            lemma_unpack_pack(argb);
        }
        Color { alpha: a, red: r, green: g, blue: b }
    }

    pub fn a(&self) -> (v: u8)
        ensures
            v == self.spec_a(),
    {
        self.alpha
    }

    pub fn r(&self) -> (v: u8)
        ensures
            v == self.spec_r(),
    {
        self.red
    }

    pub fn g(&self) -> (v: u8)
        ensures
            v == self.spec_g(),
    {
        self.green
    }

    pub fn b(&self) -> (v: u8)
        ensures
            v == self.spec_b(),
    {
        self.blue
    }

    pub fn white() -> (c: Self)
        ensures
            c == Color::spec_rgb(255, 255, 255),
    {
        Self::from_rgb(255, 255, 255)
    }

    pub fn black() -> (c: Self)
        ensures
            c == Color::spec_rgb(0, 0, 0),
    {
        Self::from_rgb(0, 0, 0)
    }

    pub fn transparent() -> (c: Self)
        ensures
            c == Color::spec_argb(0, 0, 0, 0),
            c.spec_a() == 0 && c.spec_r() == 0 && c.spec_g() == 0 && c.spec_b() == 0,
    {
        Self::from_argb(0, 0, 0, 0)
    }

    pub fn red() -> (c: Self)
        ensures
            c == Color::spec_rgb(255, 0, 0),
    {
        Self::from_rgb(255, 0, 0)
    }

    pub fn green() -> (c: Self)
        ensures
            c == Color::spec_rgb(0, 255, 0),
    {
        Self::from_rgb(0, 255, 0)
    }

    pub fn blue() -> (c: Self)
        ensures
            c == Color::spec_rgb(0, 0, 255),
    {
        Self::from_rgb(0, 0, 255)
    }

    pub fn yellow() -> (c: Self)
        ensures
            c == Color::spec_rgb(255, 255, 0),
    {
        Self::from_rgb(255, 255, 0)
    }

    pub fn magenta() -> (c: Self)
        ensures
            c == Color::spec_rgb(255, 0, 255),
    {
        Self::from_rgb(255, 0, 255)
    }

    pub fn cyan() -> (c: Self)
        ensures
            c == Color::spec_rgb(0, 255, 255),
    {
        Self::from_rgb(0, 255, 255)
    }

    /// The opaque colour with the given channels.
    pub closed spec fn spec_rgb(r: u8, g: u8, b: u8) -> Color {
        Color { alpha: 255, red: r, green: g, blue: b }
    }

    /// The colour of the given channels.
    pub closed spec fn spec_argb(a: u8, r: u8, g: u8, b: u8) -> Color {
        Color { alpha: a, red: r, green: g, blue: b }
    }
}

/// Unpacking the four bytes of a word and packing them again gives the word back.
pub proof fn lemma_unpack_pack(argb: u32)
    ensures
        pack_argb(
            (argb >> 24u32) as u8,
            ((argb >> 16u32) & 0xffu32) as u8,
            ((argb >> 8u32) & 0xffu32) as u8,
            (argb & 0xffu32) as u8,
        ) == argb,
{
    assert(((((argb >> 24u32) as u8) as u32) << 24u32) | (((((argb >> 16u32) & 0xffu32) as u8) as u32) << 16u32)
        | (((((argb >> 8u32) & 0xffu32) as u8) as u32) << 8u32) | (((argb & 0xffu32) as u8) as u32) == argb)
        by (bit_vector);
}

/// Packing four channels and unpacking the word gives the channels back.
pub proof fn lemma_pack_unpack(a: u8, r: u8, g: u8, b: u8)
    ensures
        (pack_argb(a, r, g, b) >> 24u32) as u8 == a,
        ((pack_argb(a, r, g, b) >> 16u32) & 0xffu32) as u8 == r,
        ((pack_argb(a, r, g, b) >> 8u32) & 0xffu32) as u8 == g,
        (pack_argb(a, r, g, b) & 0xffu32) as u8 == b,
{
    let w = pack_argb(a, r, g, b);
    assert(w == ((a as u32) << 24u32) | ((r as u32) << 16u32) | ((g as u32) << 8u32) | (b as u32));
    assert((((a as u32) << 24u32) | ((r as u32) << 16u32) | ((g as u32) << 8u32) | (b as u32)) >> 24u32
        == a as u32) by (bit_vector);
    assert(((((a as u32) << 24u32) | ((r as u32) << 16u32) | ((g as u32) << 8u32) | (b as u32)) >> 16u32)
        & 0xffu32 == r as u32) by (bit_vector);
    assert(((((a as u32) << 24u32) | ((r as u32) << 16u32) | ((g as u32) << 8u32) | (b as u32)) >> 8u32)
        & 0xffu32 == g as u32) by (bit_vector);
    assert((((a as u32) << 24u32) | ((r as u32) << 16u32) | ((g as u32) << 8u32) | (b as u32)) & 0xffu32
        == b as u32) by (bit_vector);
}

/// A colour survives a round trip through its packed form.
pub proof fn lemma_color_argb_round_trip(c: Color)
    ensures
        Color::from_packed(pack_argb(c.spec_a(), c.spec_r(), c.spec_g(), c.spec_b())) == c,
{
    lemma_pack_unpack(c.spec_a(), c.spec_r(), c.spec_g(), c.spec_b());
}

impl Color {
    /// The colour that `from_argb_u32` builds from a packed word.
    pub closed spec fn from_packed(argb: u32) -> Color {
        Color {
            alpha: (argb >> 24u32) as u8,
            red: ((argb >> 16u32) & 0xffu32) as u8,
            green: ((argb >> 8u32) & 0xffu32) as u8,
            blue: (argb & 0xffu32) as u8,
        }
    }
}

impl Default for Color {
    fn default() -> (c: Self)
        ensures
            c == Color::spec_rgb(255, 255, 255),
    {
        Self::white()
    }
}

/// A width and a height.
#[derive(Debug, Clone, Copy, PartialEq, Eq, Structural, Default, Hash)]
pub struct Size {
    pub width: i32,
    pub height: i32,
}

impl Size {
    pub fn new(width: i32, height: i32) -> (s: Self)
        ensures
            s.width == width,
            s.height == height,
    {
        Size { width, height }
    }

    pub fn zero() -> (s: Self)
        ensures
            s.width == 0,
            s.height == 0,
    {
        Size { width: 0, height: 0 }
    }

    pub fn is_empty(&self) -> (b: bool)
        ensures
            b == (self.width == 0 || self.height == 0),
    {
        self.width == 0 || self.height == 0
    }
}

/// An axis-aligned rectangle given by its top-left corner and its size.
#[derive(Debug, Clone, Copy, PartialEq, Eq, Structural, Default)]
pub struct Rectangle {
    pub x: i32,
    pub y: i32,
    pub width: i32,
    pub height: i32,
}

impl Rectangle {
    /// The right and bottom edges fit in an `i32`.
    pub open spec fn edges_fit(self) -> bool {
        &&& i32::MIN <= self.x + self.width <= i32::MAX
        &&& i32::MIN <= self.y + self.height <= i32::MAX
    }

    pub open spec fn spec_right(self) -> int {
        self.x + self.width
    }

    pub open spec fn spec_bottom(self) -> int {
        self.y + self.height
    }

    pub fn new(x: i32, y: i32, width: i32, height: i32) -> (r: Self)
        ensures
            r.x == x && r.y == y && r.width == width && r.height == height,
    {
        Rectangle { x, y, width, height }
    }

    pub fn from_location_size(location: Point, size: Size) -> (r: Self)
        ensures
            r.x == location.x && r.y == location.y,
            r.width == size.width && r.height == size.height,
    {
        Rectangle { x: location.x, y: location.y, width: size.width, height: size.height }
    }

    pub fn left(&self) -> (v: i32)
        ensures
            v == self.x,
    {
        self.x
    }

    pub fn top(&self) -> (v: i32)
        ensures
            v == self.y,
    {
        self.y
    }

    pub fn right(&self) -> (v: i32)
        requires
            self.edges_fit(),
        ensures
            v == self.spec_right(),
    {
        self.x + self.width
    }

    pub fn bottom(&self) -> (v: i32)
        requires
            self.edges_fit(),
        ensures
            v == self.spec_bottom(),
    {
        self.y + self.height
    }

    pub fn location(&self) -> (p: Point)
        ensures
            p.x == self.x && p.y == self.y,
    {
        Point::new(self.x, self.y)
    }

    pub fn size(&self) -> (s: Size)
        ensures
            s.width == self.width && s.height == self.height,
    {
        Size::new(self.width, self.height)
    }

    /// Whether the point lies inside; the right and bottom edges are exclusive.
    pub fn contains(&self, point: Point) -> (b: bool)
        requires
            self.edges_fit(),
        ensures
            b == (self.x <= point.x < self.spec_right() && self.y <= point.y < self.spec_bottom()),
    {
        point.x >= self.left() && point.x < self.right() && point.y >= self.top() && point.y
            < self.bottom()
    }

    /// Whether `rect` lies wholly inside this rectangle.
    pub fn contains_rect(&self, rect: Rectangle) -> (b: bool)
        requires
            self.edges_fit(),
            rect.edges_fit(),
        ensures
            b == (self.x <= rect.x && self.y <= rect.y && rect.spec_right() <= self.spec_right()
                && rect.spec_bottom() <= self.spec_bottom()),
    {
        self.x <= rect.x && self.y <= rect.y && self.right() >= rect.right() && self.bottom()
            >= rect.bottom()
    }

    /// Whether the two rectangles overlap in an area of positive size.
    pub fn intersects(&self, rect: Rectangle) -> (b: bool)
        requires
            self.edges_fit(),
            rect.edges_fit(),
        ensures
            b == rectangles_overlap(*self, rect),
    {
        rect.left() < self.right() && self.left() < rect.right() && rect.top() < self.bottom()
            && self.top() < rect.bottom()
    }
}

/// Two rectangles overlap when each starts before the other ends, on both axes.
pub open spec fn rectangles_overlap(a: Rectangle, b: Rectangle) -> bool {
    &&& b.x < a.spec_right()
    &&& a.x < b.spec_right()
    &&& b.y < a.spec_bottom()
    &&& a.y < b.spec_bottom()
}

/// Overlap is symmetric.
pub proof fn lemma_intersects_symmetric(a: Rectangle, b: Rectangle)
    ensures
        rectangles_overlap(a, b) == rectangles_overlap(b, a),
{
}

/// A rectangle of positive size that contains another of positive size also overlaps it.
pub proof fn lemma_contains_implies_intersects(a: Rectangle, b: Rectangle)
    requires
        b.width > 0,
        b.height > 0,
        a.x <= b.x && a.y <= b.y && b.spec_right() <= a.spec_right() && b.spec_bottom()
            <= a.spec_bottom(),
    ensures
        rectangles_overlap(a, b),
{
}

/// Mouse buttons.
#[derive(Debug, Clone, Copy, PartialEq, Eq, Structural)]
pub enum MouseButton {
    NoButton,
    Left,
    Right,
    Middle,
}

impl Default for MouseButton {
    fn default() -> (b: Self)
        ensures
            b == MouseButton::NoButton,
    {
        MouseButton::NoButton
    }
}

/// Keyboard key codes.
#[derive(Debug, Clone, Copy, PartialEq, Eq, Structural, Hash)]
pub enum KeyCode {
    A,
    B,
    C,
    D,
    E,
    F,
    G,
    H,
    I,
    J,
    K,
    L,
    M,
    N,
    O,
    P,
    Q,
    R,
    S,
    T,
    U,
    V,
    W,
    X,
    Y,
    Z,
    Num0,
    Num1,
    Num2,
    Num3,
    Num4,
    Num5,
    Num6,
    Num7,
    Num8,
    Num9,
    Numpad0,
    Numpad1,
    Numpad2,
    Numpad3,
    Numpad4,
    Numpad5,
    Numpad6,
    Numpad7,
    Numpad8,
    Numpad9,
    F1,
    F2,
    F3,
    F4,
    F5,
    F6,
    F7,
    F8,
    F9,
    F10,
    F11,
    F12,
    Up,
    Down,
    Left,
    Right,
    Enter,
    Escape,
    Tab,
    Space,
    Backspace,
    Delete,
    Insert,
    Home,
    End,
    PageUp,
    PageDown,
    Shift,
    Control,
    Alt,
    LeftShift,
    RightShift,
    LeftControl,
    RightControl,
    LeftAlt,
    RightAlt,
    Minus,
    Equals,
    LeftBracket,
    RightBracket,
    Semicolon,
    Quote,
    Comma,
    Period,
    Slash,
    Backslash,
    Tilde,
    CapsLock,
    NumLock,
    ScrollLock,
    Unknown,
}

/// Blending modes for rendering.
#[derive(Debug, Clone, Copy, PartialEq, Eq, Structural)]
pub enum BlendMode {
    NoBlend,
    Normal,
    Additive,
    Multiply,
    Screen,
}

impl Default for BlendMode {
    fn default() -> (m: Self)
        ensures
            m == BlendMode::NoBlend,
    {
        BlendMode::NoBlend
    }
}

} // verus!
