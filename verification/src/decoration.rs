//! What the decorations of a window look like and when they are painted anew.

use crate::geometry::{
    larger, max, min, smaller, DecorationAction, Layout, Point, Rect, Size, BAR, GRIP, STRIP,
};
use crate::text::same_text;
use crate::windows::{draws_decoration, shows_decoration, DecorationHit, StackedWindow, WindowId};
use vstd::prelude::*;

verus! {

/// Everything that the painted decorations of a window depend on.
#[derive(Debug)]
pub struct Appearance {
    pub title: String,
    pub width: i32,
    /// The bits of the output's scale, a positive floating-point number.
    pub scale_bits: u64,
    pub active: bool,
    pub hover: Option<DecorationAction>,
    pub pressed: bool,
}

#[verifier::ext_equal]
pub struct AppearanceModel {
    pub title: Seq<char>,
    pub width: int,
    pub scale_bits: int,
    pub active: bool,
    pub hover: Option<DecorationAction>,
    pub pressed: bool,
}

/// The two painted parts of a window's decorations.
#[derive(Clone, Copy, Debug, PartialEq, Eq, Structural)]
pub enum DecorationPart {
    Bar,
    Strip,
}

impl Clone for Appearance {
    fn clone(&self) -> (r: Self)
        ensures
            r@ == self@,
    {
        Appearance {
            title: self.title.clone(),
            width: self.width,
            scale_bits: self.scale_bits,
            active: self.active,
            hover: self.hover,
            pressed: self.pressed,
        }
    }
}

pub open spec fn shown_title(title: Seq<char>) -> Seq<char> {
    if title.len() == 0 {
        "Untitled"@
    } else {
        title
    }
}

fn is_close(hover: Option<DecorationAction>) -> (r: bool)
    ensures
        r == (hover == Some(DecorationAction::Close)),
{
    match hover {
        Some(DecorationAction::Close) => true,
        _ => false,
    }
}

fn is_resize(hover: Option<DecorationAction>) -> (r: bool)
    ensures
        r == (hover == Some(DecorationAction::Resize)),
{
    match hover {
        Some(DecorationAction::Resize) => true,
        _ => false,
    }
}

impl Appearance {
    pub open spec fn view(&self) -> AppearanceModel {
        AppearanceModel {
            title: self.title@,
            width: self.width as int,
            scale_bits: self.scale_bits as int,
            active: self.active,
            hover: self.hover,
            pressed: self.pressed,
        }
    }

    /// The look of a window's decorations: a window without a title is called
    /// "Untitled", and only the window under the pointer lights up.
    pub fn of_window(
        window: WindowId,
        title: &str,
        width: i32,
        scale_bits: u64,
        active: bool,
        hover: Option<DecorationHit>,
        pressed: Option<WindowId>,
    ) -> (r: Self)
        ensures
            r@ == (AppearanceModel {
                title: shown_title(title@),
                width: width as int,
                scale_bits: scale_bits as int,
                active,
                hover: match hover {
                    Some(hit) if hit.window == window => Some(hit.action),
                    _ => None,
                },
                pressed: pressed == Some(window),
            }),
    {
        let shown: String = if title.unicode_len() == 0 {
            "Untitled".to_owned()
        } else {
            title.to_owned()
        };
        let lit: Option<DecorationAction> = match hover {
            Some(hit) => if hit.window == window {
                Some(hit.action)
            } else {
                None
            },
            None => None,
        };
        let held: bool = match pressed {
            Some(target) => target == window,
            None => false,
        };
        Appearance { title: shown, width, scale_bits, active, hover: lit, pressed: held }
    }

    fn same(&self, other: &Appearance) -> (r: bool)
        ensures
            r == (self@ == other@),
    {
        let same_hover: bool = match (self.hover, other.hover) {
            (Some(a), Some(b)) => a == b,
            (None, None) => true,
            _ => false,
        };
        let same_title: bool = same_text(self.title.as_str(), other.title.as_str());
        let r: bool = same_title && self.width == other.width && self.scale_bits == other.scale_bits
            && self.active == other.active && same_hover && self.pressed == other.pressed;
        assert(r ==> self@ =~= other@);
        r
    }
}

impl AppearanceModel {
    /// Whether the bar looks the same under both appearances.
    pub open spec fn same_bar(self, other: Self) -> bool {
        &&& self.scale_bits == other.scale_bits
        &&& self.active == other.active
        &&& self.width == other.width
        &&& self.title == other.title
        &&& self.pressed == other.pressed
        &&& (self.hover == Some(DecorationAction::Close)) == (other.hover == Some(
            DecorationAction::Close,
        ))
    }

    /// Whether the strip looks the same under both appearances.
    pub open spec fn same_strip(self, other: Self) -> bool {
        &&& self.scale_bits == other.scale_bits
        &&& self.active == other.active
        &&& smaller(self.width, GRIP as int) == smaller(other.width, GRIP as int)
        &&& (self.hover == Some(DecorationAction::Resize)) == (other.hover == Some(
            DecorationAction::Resize,
        ))
    }
}

/// Which parts are painted anew.
#[derive(Clone, Copy, Debug, PartialEq, Eq, Structural)]
pub struct Repaint {
    pub bar: bool,
    pub strip: bool,
}

/// The appearance that a window's painted decorations have.
#[derive(Debug)]
pub struct Decoration {
    pub appearance: Option<Appearance>,
}

pub open spec fn look(appearance: Option<Appearance>) -> Option<AppearanceModel> {
    match appearance {
        Some(shown) => Some(shown@),
        None => None,
    }
}

pub open spec fn needed_repaint(shown: Option<AppearanceModel>, wanted: AppearanceModel) -> Option<
    Repaint,
> {
    match shown {
        Some(previous) => if previous == wanted {
            None
        } else {
            Some(Repaint { bar: !previous.same_bar(wanted), strip: !previous.same_strip(wanted) })
        },
        None => Some(Repaint { bar: true, strip: true }),
    }
}

impl Default for Decoration {
    fn default() -> (r: Self)
        ensures
            r@ is None,
    {
        Decoration { appearance: None }
    }
}

impl Decoration {
    pub open spec fn view(&self) -> Option<AppearanceModel> {
        look(self.appearance)
    }

    /// What an appearance asks to be painted. `None` when it is the one that is
    /// shown already.
    pub fn repaint(&self, wanted: &Appearance) -> (r: Option<Repaint>)
        ensures
            r == needed_repaint(self@, wanted@),
    {
        match &self.appearance {
            Some(previous) => {
                if previous.same(wanted) {
                    return None;
                }
                let common: bool = previous.scale_bits == wanted.scale_bits && previous.active
                    == wanted.active;
                let title: bool = same_text(previous.title.as_str(), wanted.title.as_str());
                let bar: bool = common && previous.width == wanted.width && title
                    && previous.pressed == wanted.pressed && is_close(previous.hover) == is_close(
                    wanted.hover,
                );
                let strip: bool = common && min(previous.width, GRIP) == min(wanted.width, GRIP)
                    && is_resize(previous.hover) == is_resize(wanted.hover);
                Some(Repaint { bar: !bar, strip: !strip })
            },
            None => Some(Repaint { bar: true, strip: true }),
        }
    }

    /// Records that the parts that an appearance asked for were painted.
    pub fn painted(&mut self, shown: Appearance)
        ensures
            final(self)@ == Some(shown@),
    {
        self.appearance = Some(shown);
    }
}

/// An appearance that was painted asks for nothing more, so an idle desktop stays
/// undamaged.
pub proof fn law_idle_decorations_are_not_repainted(shown: AppearanceModel)
    ensures
        needed_repaint(Some(shown), shown) is None,
{
}

/// The colours of a window's decorations, as 0xRRGGBB.
#[derive(Clone, Copy, Debug, PartialEq, Eq, Structural)]
pub struct Palette {
    pub background: u32,
    pub foreground: u32,
    pub border: u32,
}

pub open spec fn palette_of(active: bool) -> Palette {
    if active {
        Palette { background: 0x27_2e39, foreground: 0xe7_ebf0, border: 0x46_5164 }
    } else {
        Palette { background: 0x20_252d, foreground: 0x98_a2b2, border: 0x30_3743 }
    }
}

/// What is painted on the bar.
#[derive(Clone, Copy, Debug, PartialEq, Eq, Structural)]
pub struct BarPaint {
    /// The close button, relative to the window.
    pub close: Rect,
    /// The colour that fills the close button while the pointer is on it.
    pub close_fill: Option<u32>,
    /// The colour of the cross on the close button.
    pub cross: u32,
    /// The room of the title, which is not drawn where there is none.
    pub title_width: i32,
}

/// What is painted on the strip.
#[derive(Clone, Copy, Debug, PartialEq, Eq, Structural)]
pub struct StripPaint {
    /// The colour of the lines of the resize grip.
    pub grip: u32,
    /// Where the rightmost line ends.
    pub right: i32,
}

#[derive(Clone, Copy, Debug, PartialEq, Eq, Structural)]
pub enum PartPaint {
    Bar { bar: BarPaint },
    Strip { strip: StripPaint },
}

/// How one part is painted.
#[derive(Clone, Copy, Debug, PartialEq, Eq, Structural)]
pub struct Paint {
    pub size: Size,
    pub palette: Palette,
    pub part: PartPaint,
}

pub open spec fn paint_of(look: AppearanceModel, part: DecorationPart) -> Paint {
    let palette = palette_of(look.active);
    match part {
        DecorationPart::Bar => {
            let close = Layout { size: Size { w: look.width as i32, h: 0 } }.spec_close();
            Paint {
                size: Size { w: look.width as i32, h: BAR },
                palette,
                part: PartPaint::Bar {
                    bar: BarPaint {
                        close,
                        close_fill: if look.hover == Some(DecorationAction::Close) {
                            Some(
                                if look.pressed {
                                    0x85_2936
                                } else {
                                    0xb8_3245
                                },
                            )
                        } else {
                            None
                        },
                        cross: if look.hover == Some(DecorationAction::Close) {
                            0xff_ffff
                        } else {
                            palette.foreground
                        },
                        title_width: larger(close.loc.x - 24, 0) as i32,
                    },
                },
            }
        },
        DecorationPart::Strip => {
            let width = smaller(look.width, GRIP as int);
            Paint {
                size: Size { w: width as i32, h: STRIP },
                palette,
                part: PartPaint::Strip {
                    strip: StripPaint {
                        grip: if look.hover == Some(DecorationAction::Resize) {
                            0xe7_ebf0
                        } else {
                            0x76_8399
                        },
                        right: (width - 4) as i32,
                    },
                },
            }
        },
    }
}

/// Decides how a part of the decorations is painted: active windows are brighter,
/// the close button is filled while the pointer is on it, and darker while it is
/// pressed, and the title ends before the close button.
pub fn paint(look: &Appearance, part: DecorationPart) -> (r: Paint)
    requires
        look.width >= i32::MIN + BAR,
    ensures
        r == paint_of(look@, part),
{
    let palette: Palette = if look.active {
        Palette { background: 0x27_2e39, foreground: 0xe7_ebf0, border: 0x46_5164 }
    } else {
        Palette { background: 0x20_252d, foreground: 0x98_a2b2, border: 0x30_3743 }
    };
    match part {
        DecorationPart::Bar => {
            let layout: Layout = Layout { size: Size { w: look.width, h: 0 } };
            let close: Rect = layout.close();
            let lit: bool = is_close(look.hover);
            let close_fill: Option<u32> = if lit {
                Some(
                    if look.pressed {
                        0x85_2936
                    } else {
                        0xb8_3245
                    },
                )
            } else {
                None
            };
            let cross: u32 = if lit {
                0xff_ffff
            } else {
                palette.foreground
            };
            let title_width: i32 = max(close.loc.x - 24, 0);
            Paint {
                size: Size { w: look.width, h: BAR },
                palette,
                part: PartPaint::Bar { bar: BarPaint { close, close_fill, cross, title_width } },
            }
        },
        DecorationPart::Strip => {
            let width: i32 = min(look.width, GRIP);
            let layout: Layout = Layout { size: Size { w: width, h: 0 } };
            let grip: u32 = if is_resize(look.hover) {
                0xe7_ebf0
            } else {
                0x76_8399
            };
            let area: Rect = layout.resize();
            let right: i32 = area.loc.x + area.size.w - 4;
            Paint {
                size: Size { w: width, h: STRIP },
                palette,
                part: PartPaint::Strip { strip: StripPaint { grip, right } },
            }
        },
    }
}

/// A part that is not painted anew would look the same painted again.
pub proof fn law_skipped_parts_look_the_same(
    shown: AppearanceModel,
    wanted: AppearanceModel,
)
    requires
        i32::MIN <= shown.width <= i32::MAX,
        i32::MIN <= wanted.width <= i32::MAX,
    ensures
        match needed_repaint(Some(shown), wanted) {
            Some(repaint) => {
                &&& !repaint.bar ==> paint_of(shown, DecorationPart::Bar) == paint_of(
                    wanted,
                    DecorationPart::Bar,
                ) && shown.title == wanted.title
                &&& !repaint.strip ==> paint_of(shown, DecorationPart::Strip) == paint_of(
                    wanted,
                    DecorationPart::Strip,
                )
            },
            None => shown == wanted,
        },
{
}

/// The title never reaches the close button.
pub proof fn law_titles_end_before_the_close_button(look: AppearanceModel)
    requires
        0 <= look.width <= i32::MAX,
    ensures
        paint_of(look, DecorationPart::Bar).part matches PartPaint::Bar { bar } ==> bar.title_width
            >= 0 && (bar.title_width > 0 ==> 12 + bar.title_width <= bar.close.loc.x),
{
}

/// The red, green and blue byte of a colour.
pub fn components(rgb: u32) -> (r: (u8, u8, u8))
    ensures
        r.0 == (rgb / 0x1_0000) % 0x100,
        r.1 == (rgb / 0x100) % 0x100,
        r.2 == rgb % 0x100,
{
    (((rgb / 0x1_0000) % 0x100) as u8, ((rgb / 0x100) % 0x100) as u8, (rgb % 0x100) as u8)
}

/// A window with what its place in the scene depends on.
#[derive(Debug)]
pub struct SceneWindow {
    pub window: StackedWindow,
    /// The corner of the window's geometry in its own surface.
    pub origin: Point,
    pub title: String,
    pub active: bool,
}

#[derive(Debug)]
pub struct SceneDecoration {
    pub appearance: Appearance,
    pub bar: Rect,
    pub strip: Rect,
}

/// A window as it is drawn: its surfaces, then its decorations.
#[derive(Debug)]
pub struct SceneElement {
    pub id: WindowId,
    /// Where the surfaces are drawn.
    pub surfaces: Point,
    pub decoration: Option<SceneDecoration>,
}

pub struct SceneDecorationModel {
    pub appearance: AppearanceModel,
    pub bar: Rect,
    pub strip: Rect,
}

pub struct SceneElementModel {
    pub id: WindowId,
    pub surfaces: Point,
    pub decoration: Option<SceneDecorationModel>,
}

impl SceneDecoration {
    pub open spec fn view(&self) -> SceneDecorationModel {
        SceneDecorationModel { appearance: self.appearance@, bar: self.bar, strip: self.strip }
    }
}

impl SceneElement {
    pub open spec fn view(&self) -> SceneElementModel {
        SceneElementModel {
            id: self.id,
            surfaces: self.surfaces,
            decoration: match self.decoration {
                Some(decoration) => Some(decoration@),
                None => None,
            },
        }
    }
}

/// What the pointer does to the decorations, with the output's scale.
#[derive(Clone, Copy, Debug, PartialEq, Eq, Structural)]
pub struct SceneLight {
    pub scale_bits: u64,
    pub hover: Option<DecorationHit>,
    pub pressed: Option<WindowId>,
}

pub open spec fn placed(rect: Rect, location: Point) -> Rect {
    Rect {
        loc: Point { x: (location.x + rect.loc.x) as i32, y: (location.y + rect.loc.y) as i32 },
        size: rect.size,
    }
}

/// Whether the places of a window's surfaces and decorations can be computed.
pub open spec fn room_to_draw(scene: SceneWindow) -> bool {
    scene.window.location matches Some(location) ==> {
        let layout = Layout { size: scene.window.size };
        &&& i32::MIN <= location.x - scene.origin.x <= i32::MAX
        &&& i32::MIN <= location.y - scene.origin.y <= i32::MAX
        &&& shows_decoration(scene.window) ==> {
            &&& i32::MIN <= location.y - BAR
            &&& location.x + larger(scene.window.size.w - GRIP, 0) <= i32::MAX
            &&& location.y + scene.window.size.h <= i32::MAX
        }
    }
}

pub open spec fn scene_appearance(scene: SceneWindow, light: SceneLight) -> AppearanceModel {
    AppearanceModel {
        title: shown_title(scene.title@),
        width: scene.window.size.w as int,
        scale_bits: light.scale_bits as int,
        active: scene.active,
        hover: match light.hover {
            Some(hit) if hit.window == scene.window.id => Some(hit.action),
            _ => None,
        },
        pressed: light.pressed == Some(scene.window.id),
    }
}

pub open spec fn scene_element(scene: SceneWindow, location: Point, light: SceneLight) ->
    SceneElementModel {
    let layout = Layout { size: scene.window.size };
    SceneElementModel {
        id: scene.window.id,
        surfaces: Point {
            x: (location.x - scene.origin.x) as i32,
            y: (location.y - scene.origin.y) as i32,
        },
        decoration: if shows_decoration(scene.window) {
            Some(
                SceneDecorationModel {
                    appearance: scene_appearance(scene, light),
                    bar: placed(layout.spec_bar(), location),
                    strip: placed(layout.spec_resize(), location),
                },
            )
        } else {
            None
        },
    }
}

/// The windows of the stack that have a location, from the topmost down.
pub open spec fn scene_of(stack: Seq<SceneWindow>, light: SceneLight) -> Seq<SceneElementModel>
    decreases stack.len(),
{
    if stack.len() == 0 {
        Seq::empty()
    } else {
        let below = scene_of(stack.drop_last(), light);
        match stack.last().window.location {
            Some(location) => seq![scene_element(stack.last(), location, light)] + below,
            None => below,
        }
    }
}

pub open spec fn element_models(elements: Seq<SceneElement>) -> Seq<SceneElementModel> {
    elements.map_values(|element: SceneElement| element@)
}

fn place(rect: Rect, location: Point) -> (r: Rect)
    requires
        i32::MIN <= location.x + rect.loc.x <= i32::MAX,
        i32::MIN <= location.y + rect.loc.y <= i32::MAX,
    ensures
        r == placed(rect, location),
{
    Rect {
        loc: Point { x: location.x + rect.loc.x, y: location.y + rect.loc.y },
        size: rect.size,
    }
}

/// Lists what is drawn, topmost window first: the surfaces of every window that has
/// a location, and decorations around those that show them.
pub fn scene_elements(stack: &Vec<SceneWindow>, light: SceneLight) -> (elements: Vec<SceneElement>)
    requires
        forall|i: int| 0 <= i < stack.len() ==> room_to_draw(#[trigger] stack[i]),
    ensures
        element_models(elements@) == scene_of(stack@, light),
{
    let mut elements: Vec<SceneElement> = Vec::new();
    let mut index: usize = stack.len();
    assert(stack@.take(index as int) == stack@);
    assert(element_models(elements@) + scene_of(stack@, light) =~= scene_of(stack@, light));
    while index > 0
        invariant
            index <= stack.len(),
            forall|i: int| 0 <= i < stack.len() ==> room_to_draw(#[trigger] stack[i]),
            element_models(elements@) + scene_of(stack@.take(index as int), light) == scene_of(
                stack@,
                light,
            ),
        decreases index,
    {
        let ghost above = stack@.take(index as int);
        index = index - 1;
        let scene: &SceneWindow = &stack[index];
        assert(above.drop_last() == stack@.take(index as int));
        assert(above.last() == scene);
        assert(room_to_draw(stack[index as int]));
        if let Some(location) = scene.window.location {
            let ghost before = elements@;
            let decoration: Option<SceneDecoration> = if draws_decoration(scene.window) {
                let layout: Layout = Layout { size: scene.window.size };
                let appearance: Appearance = Appearance::of_window(
                    scene.window.id,
                    scene.title.as_str(),
                    scene.window.size.w,
                    light.scale_bits,
                    scene.active,
                    light.hover,
                    light.pressed,
                );
                Some(
                    SceneDecoration {
                        appearance,
                        bar: place(layout.bar(), location),
                        strip: place(layout.resize(), location),
                    },
                )
            } else {
                None
            };
            let element: SceneElement = SceneElement {
                id: scene.window.id,
                surfaces: Point { x: location.x - scene.origin.x, y: location.y - scene.origin.y },
                decoration,
            };
            assert(element@ == scene_element(*scene, location, light));
            elements.push(element);
            assert(element_models(elements@) =~= element_models(before) + seq![element@]);
            assert(element_models(before) + (seq![element@] + scene_of(
                stack@.take(index as int),
                light,
            )) =~= element_models(elements@) + scene_of(stack@.take(index as int), light));
        }
    }
    assert(scene_of(stack@.take(0), light) =~= Seq::<SceneElementModel>::empty());
    assert(element_models(elements@) + Seq::<SceneElementModel>::empty() =~= element_models(
        elements@,
    ));
    elements
}

/// Which parts are painted anew: both the first time and when the scale or the activity
/// changes; the bar when the width, the title or the state of its close button does; the
/// strip when the state of its grip does, or its width, which follows the window's up to
/// 24 pixels.
pub proof fn law_parts_are_painted_when_they_change(
    shown: AppearanceModel,
    wanted: AppearanceModel,
)
    ensures
        needed_repaint(None, wanted) == Some(Repaint { bar: true, strip: true }),
        ({
            let common = shown.scale_bits != wanted.scale_bits || shown.active != wanted.active;
            let close = (shown.hover == Some(DecorationAction::Close)) != (wanted.hover == Some(
                DecorationAction::Close,
            ));
            let grip = (shown.hover == Some(DecorationAction::Resize)) != (wanted.hover == Some(
                DecorationAction::Resize,
            ));
            let bar = common || close || shown.width != wanted.width || shown.title != wanted.title
                || shown.pressed != wanted.pressed;
            let strip = common || grip || (shown.width != wanted.width && (shown.width < 24
                || wanted.width < 24));
            match needed_repaint(Some(shown), wanted) {
                Some(repaint) => repaint.bar == bar && repaint.strip == strip,
                None => !bar && !strip && shown == wanted,
            }
        }),
{
}

/// How the bar looks: 32 pixels high and as wide as the window, with the close button in
/// its last 32 pixels. The button is filled while the pointer is on it, darker while it
/// is pressed, under a white cross.
pub proof fn law_the_bar_shows_its_close_button(look: AppearanceModel)
    requires
        32 <= look.width <= i32::MAX,
    ensures
        ({
            let paint = paint_of(look, DecorationPart::Bar);
            let lit = look.hover == Some(DecorationAction::Close);
            &&& paint.size == (Size { w: look.width as i32, h: 32 })
            &&& paint.part is Bar
            &&& paint.part->bar.close.loc.x + 32 == look.width
            &&& paint.part->bar.close.size == (Size { w: 32, h: 32 })
            &&& lit && look.pressed ==> paint.part->bar.close_fill == Some(0x85_2936u32)
            &&& lit && !look.pressed ==> paint.part->bar.close_fill == Some(0xb8_3245u32)
            &&& !lit ==> paint.part->bar.close_fill is None
            &&& lit ==> paint.part->bar.cross == 0xff_ffff
            &&& !lit ==> paint.part->bar.cross == paint.palette.foreground
            &&& look.width >= 56 ==> paint.part->bar.title_width == look.width - 56
            &&& look.width < 56 ==> paint.part->bar.title_width == 0
        }),
{
}

/// How the strip looks: 8 pixels high and no wider than its grip, which is bright while
/// the pointer is on it.
pub proof fn law_the_strip_shows_its_grip(look: AppearanceModel)
    requires
        0 <= look.width <= i32::MAX,
    ensures
        ({
            let paint = paint_of(look, DecorationPart::Strip);
            &&& paint.size.h == 8
            &&& paint.size.w <= 24 && paint.size.w <= look.width
            &&& paint.size.w == 24 || paint.size.w == look.width
            &&& paint.part is Strip
            &&& paint.part->strip.right + 4 == paint.size.w
            &&& look.hover == Some(DecorationAction::Resize) ==> paint.part->strip.grip
                == 0xe7_ebf0
            &&& look.hover != Some(DecorationAction::Resize) ==> paint.part->strip.grip
                == 0x76_8399
        }),
{
}

/// Active and inactive windows have colours of their own, on both parts.
pub proof fn law_active_windows_have_their_colours(look: AppearanceModel, part: DecorationPart)
    ensures
        look.active ==> paint_of(look, part).palette == (Palette {
            background: 0x27_2e39,
            foreground: 0xe7_ebf0,
            border: 0x46_5164,
        }),
        !look.active ==> paint_of(look, part).palette == (Palette {
            background: 0x20_252d,
            foreground: 0x98_a2b2,
            border: 0x30_3743,
        }),
{
}

/// A window is drawn where it lies, its surfaces moved back by the corner of its
/// geometry; the bar ends where it begins and the strip begins where it ends. Windows
/// that are hidden, empty or not decorated show neither.
pub proof fn law_windows_are_drawn_where_they_lie(
    scene: SceneWindow,
    location: Point,
    light: SceneLight,
)
    requires
        room_to_draw(scene),
        scene.window.location == Some(location),
    ensures
        ({
            let element = scene_element(scene, location, light);
            let window = scene.window;
            &&& element.id == window.id
            &&& element.surfaces.x + scene.origin.x == location.x
            &&& element.surfaces.y + scene.origin.y == location.y
            &&& element.decoration is Some <==> window.mapped && window.size.w > 0 && window.size.h
                > 0 && crate::windows::bar_and_strip(window.shell)
            &&& element.decoration matches Some(decoration) ==> {
                &&& decoration.bar.loc.x == location.x
                &&& decoration.bar.loc.y + 32 == location.y
                &&& decoration.bar.size == (Size { w: window.size.w, h: 32 })
                &&& decoration.strip.loc.y == location.y + window.size.h
                &&& decoration.strip.loc.x + decoration.strip.size.w == location.x + window.size.w
                &&& decoration.strip.size.h == 8
                &&& decoration.strip.size.w == 24 || (window.size.w < 24 && decoration.strip.size.w
                    == window.size.w)
                &&& decoration.appearance.width == window.size.w
                &&& decoration.appearance.active == scene.active
                &&& decoration.appearance.scale_bits == light.scale_bits
                &&& scene.title@.len() > 0 ==> decoration.appearance.title == scene.title@
                &&& scene.title@.len() == 0 ==> decoration.appearance.title == "Untitled"@
                &&& decoration.appearance.pressed <==> light.pressed == Some(window.id)
                &&& light.hover matches Some(hit) ==> if hit.window == window.id {
                    decoration.appearance.hover == Some(hit.action)
                } else {
                    decoration.appearance.hover is None
                }
                &&& light.hover is None ==> decoration.appearance.hover is None
            }
        }),
{
}

/// The scene lists the windows from the topmost down: those of the upper part of a stack
/// come before those of the lower part. A window without a location is not in it.
pub proof fn law_the_scene_is_drawn_from_the_top(
    lower: Seq<SceneWindow>,
    upper: Seq<SceneWindow>,
    scene: SceneWindow,
    light: SceneLight,
)
    ensures
        scene_of(lower + upper, light) == scene_of(upper, light) + scene_of(lower, light),
        scene.window.location is None ==> scene_of(seq![scene], light).len() == 0,
        scene.window.location matches Some(location) ==> scene_of(seq![scene], light) == seq![
            scene_element(scene, location, light),
        ],
    decreases upper.len(),
{
    assert(seq![scene].drop_last() =~= Seq::<SceneWindow>::empty());
    assert(scene_of(seq![scene].drop_last(), light) =~= Seq::<SceneElementModel>::empty());
    if let Some(location) = scene.window.location {
        assert(scene_of(seq![scene], light) =~= seq![scene_element(scene, location, light)]);
    }
    if upper.len() == 0 {
        assert(lower + upper =~= lower);
        assert(scene_of(upper, light) + scene_of(lower, light) =~= scene_of(lower, light));
    } else {
        law_the_scene_is_drawn_from_the_top(lower, upper.drop_last(), scene, light);
        assert((lower + upper).drop_last() =~= lower + upper.drop_last());
        assert((lower + upper).last() == upper.last());
        assert(scene_of(lower + upper, light) =~= scene_of(upper, light) + scene_of(lower, light));
    }
}

} // verus!
