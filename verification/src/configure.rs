//! Window configuration: the layer-shell properties of a widget, the
//! builder that checks them, and the layer-surface settings they yield.
use vstd::prelude::*;

verus! {

/// Which edges of the output a layer surface is attached to: a set of the
/// edges `TOP` (1), `BOTTOM` (2), `LEFT` (4) and `RIGHT` (8), held as bits.
#[derive(Clone, Copy, Debug, PartialEq, Eq, Structural)]
pub struct LayerAnchor {
    bits: u32,
}

impl LayerAnchor {
    /// The bits of the edges in the set.
    pub closed spec fn spec_bits(self) -> u32 {
        self.bits
    }

    /// Only the four edge bits can be set.
    pub open spec fn valid_bits(bits: u32) -> bool {
        bits < 16
    }

    #[verifier::type_invariant]
    spec fn inv(self) -> bool {
        Self::valid_bits(self.bits)
    }

    /// The bits of the edges in the set.
    pub fn bits(&self) -> (b: u32)
        ensures
            b == self.spec_bits(),
            Self::valid_bits(b),
    {
        proof {
            use_type_invariant(self);
        }
        self.bits
    }

    /// The set of edges with the given bits; bits of no edge are dropped.
    pub fn from_bits_truncate(bits: u32) -> (a: Self)
        ensures
            a.spec_bits() == bits & 15,
    {
        assert(bits & 15 < 16) by (bit_vector);
        LayerAnchor { bits: bits & 15 }
    }

    /// The top edge.
    pub fn top() -> (a: Self)
        ensures
            a.spec_bits() == 1,
    {
        LayerAnchor { bits: 1 }
    }

    /// The bottom edge.
    pub fn bottom() -> (a: Self)
        ensures
            a.spec_bits() == 2,
    {
        LayerAnchor { bits: 2 }
    }

    /// The left edge.
    pub fn left() -> (a: Self)
        ensures
            a.spec_bits() == 4,
    {
        LayerAnchor { bits: 4 }
    }

    /// The right edge.
    pub fn right() -> (a: Self)
        ensures
            a.spec_bits() == 8,
    {
        LayerAnchor { bits: 8 }
    }

    /// The edges of both sets.
    pub fn union(self, other: Self) -> (a: Self)
        ensures
            a.spec_bits() == self.spec_bits() | other.spec_bits(),
    {
        proof {
            use_type_invariant(&self);
            use_type_invariant(&other);
        }
        let x = self.bits;
        let y = other.bits;
        assert(x < 16 && y < 16 ==> x | y < 16) by (bit_vector);
        LayerAnchor { bits: x | y }
    }
}

/// The z-depth of a layer surface.
#[derive(Clone, Copy, Debug, PartialEq, Eq, Structural)]
pub enum Layer {
    Background,
    Bottom,
    Top,
    Overlay,
}

/// The relation of a layer surface with the keyboard.
#[derive(Clone, Copy, Debug, PartialEq, Eq, Structural)]
pub enum KeyboardInteractivity {
    /// No keyboard focus is possible.
    NoFocus,
    /// The layer takes the keyboard focus.
    Exclusive,
    /// The compositor gives and takes the focus as the user interacts.
    OnDemand,
}

/// Why a [`WindowConf`] could not be built.
#[derive(Clone, Copy, Debug, PartialEq, Eq, Structural)]
pub enum BuildError {
    /// The width was not set, or set to zero.
    MissingWidth,
    /// The height was not set, or set to zero.
    MissingHeight,
}

/// The message shown for a build error.
pub open spec fn build_error_message(e: BuildError) -> Seq<char> {
    match e {
        BuildError::MissingWidth => "width is either not defined or set to zero"@,
        BuildError::MissingHeight => "height is either not defined or set to zero"@,
    }
}

impl BuildError {
    /// The message shown for the error.
    pub fn message(&self) -> (m: &'static str)
        ensures
            m@ == build_error_message(*self),
    {
        match self {
            BuildError::MissingWidth => "width is either not defined or set to zero",
            BuildError::MissingHeight => "height is either not defined or set to zero",
        }
    }
}

/// The specification of a widget: its size, anchors, margins, layer,
/// keyboard relation, exclusive zone, monitor and scrolling direction.
#[derive(Debug)]
pub struct WindowConf {
    /// The widget width in pixels: the largest width the widget will take.
    pub width: u32,
    /// The widget height in pixels: the largest height the widget will take.
    pub height: u32,
    /// The edges the widget is attached to; with none it is centred.
    pub anchor: (Option<LayerAnchor>, Option<LayerAnchor>),
    /// The margins from the edges: top, right, bottom, left.
    pub margin: (i32, i32, i32, i32),
    /// The layer the widget is drawn on.
    pub layer_type: Layer,
    /// The relation of the widget with the keyboard.
    pub board_interactivity: KeyboardInteractivity,
    /// The exclusive zone in pixels, if the widget reserves one.
    pub exclusive_zone: Option<i32>,
    /// The monitor on which to show the widget; the default one when none.
    pub monitor_name: Option<String>,
    /// Whether scrolling is natural rather than reverse.
    pub natural_scroll: bool,
}

/// The plain content of a [`WindowConf`].
pub struct WindowConfView {
    pub width: u32,
    pub height: u32,
    pub anchor: (Option<LayerAnchor>, Option<LayerAnchor>),
    pub margin: (i32, i32, i32, i32),
    pub layer_type: Layer,
    pub board_interactivity: KeyboardInteractivity,
    pub exclusive_zone: Option<i32>,
    pub monitor_name: Option<Seq<char>>,
    pub natural_scroll: bool,
}

impl View for WindowConf {
    type V = WindowConfView;

    open spec fn view(&self) -> WindowConfView {
        WindowConfView {
            width: self.width,
            height: self.height,
            anchor: self.anchor,
            margin: self.margin,
            layer_type: self.layer_type,
            board_interactivity: self.board_interactivity,
            exclusive_zone: self.exclusive_zone,
            monitor_name: self.monitor_name.deep_view(),
            natural_scroll: self.natural_scroll,
        }
    }
}

impl Clone for WindowConf {
    fn clone(&self) -> (c: Self)
        ensures
            c@ == self@,
    {
        WindowConf {
            width: self.width,
            height: self.height,
            anchor: self.anchor,
            margin: self.margin,
            layer_type: self.layer_type,
            board_interactivity: self.board_interactivity,
            exclusive_zone: self.exclusive_zone,
            monitor_name: crate::vault::clone_opt_string(&self.monitor_name),
            natural_scroll: self.natural_scroll,
        }
    }
}

impl WindowConf {
    /// Creates a configuration from all its parts; no monitor is chosen and
    /// scrolling is reverse.
    pub fn new(
        max_width: u32,
        max_height: u32,
        anchor: (Option<LayerAnchor>, Option<LayerAnchor>),
        margin: (i32, i32, i32, i32),
        layer_type: Layer,
        board_interactivity: KeyboardInteractivity,
        exclusive_zone: Option<i32>,
    ) -> (conf: Self)
        ensures
            conf@ == (WindowConfView {
                width: max_width,
                height: max_height,
                anchor,
                margin,
                layer_type,
                board_interactivity,
                exclusive_zone,
                monitor_name: None,
                natural_scroll: false,
            }),
    {
        WindowConf {
            width: max_width,
            height: max_height,
            anchor,
            margin,
            layer_type,
            board_interactivity,
            exclusive_zone,
            monitor_name: None,
            natural_scroll: false,
        }
    }

    /// A builder with nothing set.
    pub fn builder() -> (b: WindowConfBuilder)
        ensures
            b@ == WindowConfBuilder::empty(),
    {
        WindowConfBuilder::default()
    }
}

/// Collects the parts of a [`WindowConf`]; [`WindowConfBuilder::build`]
/// checks them.
#[derive(Debug)]
pub struct WindowConfBuilder {
    max_width: u32,
    max_height: u32,
    anchor: (Option<LayerAnchor>, Option<LayerAnchor>),
    margin: (i32, i32, i32, i32),
    layer_type: Option<Layer>,
    board_interactivity: KeyboardInteractivity,
    exclusive_zone: Option<i32>,
    monitor_name: Option<String>,
    natural_scroll: bool,
}

/// What a builder has collected.
pub struct BuilderView {
    pub max_width: u32,
    pub max_height: u32,
    pub anchor: (Option<LayerAnchor>, Option<LayerAnchor>),
    pub margin: (i32, i32, i32, i32),
    pub layer_type: Option<Layer>,
    pub board_interactivity: KeyboardInteractivity,
    pub exclusive_zone: Option<i32>,
    pub monitor_name: Option<Seq<char>>,
    pub natural_scroll: bool,
}

impl View for WindowConfBuilder {
    type V = BuilderView;

    closed spec fn view(&self) -> BuilderView {
        BuilderView {
            max_width: self.max_width,
            max_height: self.max_height,
            anchor: self.anchor,
            margin: self.margin,
            layer_type: self.layer_type,
            board_interactivity: self.board_interactivity,
            exclusive_zone: self.exclusive_zone,
            monitor_name: self.monitor_name.deep_view(),
            natural_scroll: self.natural_scroll,
        }
    }
}

/// The configuration a builder yields: an error when the width or the
/// height is zero, else every part set, with the layer defaulting to `Top`.
pub open spec fn built(b: BuilderView) -> Result<WindowConfView, BuildError> {
    if b.max_width == 0 {
        Err(BuildError::MissingWidth)
    } else if b.max_height == 0 {
        Err(BuildError::MissingHeight)
    } else {
        Ok(
            WindowConfView {
                width: b.max_width,
                height: b.max_height,
                anchor: b.anchor,
                margin: b.margin,
                layer_type: match b.layer_type {
                    Some(l) => l,
                    None => Layer::Top,
                },
                board_interactivity: b.board_interactivity,
                exclusive_zone: b.exclusive_zone,
                monitor_name: b.monitor_name,
                natural_scroll: b.natural_scroll,
            },
        )
    }
}

impl WindowConfBuilder {
    /// What a new builder holds: zero sizes, no anchors, zero margins, no
    /// layer, no keyboard focus, no exclusive zone, no monitor, reverse
    /// scrolling.
    pub open spec fn empty() -> BuilderView {
        BuilderView {
            max_width: 0,
            max_height: 0,
            anchor: (None, None),
            margin: (0, 0, 0, 0),
            layer_type: None,
            board_interactivity: KeyboardInteractivity::NoFocus,
            exclusive_zone: None,
            monitor_name: None,
            natural_scroll: false,
        }
    }

    /// Sets the width.
    pub fn width(&mut self, width: u32) -> (r: &mut Self)
        ensures
            (*r)@ == (BuilderView { max_width: width, ..old(self)@ }),
            *final(self) == *final(r),
    {
        self.max_width = width;
        self
    }

    /// Sets the height.
    pub fn height(&mut self, height: u32) -> (r: &mut Self)
        ensures
            (*r)@ == (BuilderView { max_height: height, ..old(self)@ }),
            *final(self) == *final(r),
    {
        self.max_height = height;
        self
    }

    /// Sets the first anchor.
    pub fn anchor_1(&mut self, anchor: LayerAnchor) -> (r: &mut Self)
        ensures
            (*r)@ == (BuilderView { anchor: (Some(anchor), old(self)@.anchor.1), ..old(self)@ }),
            *final(self) == *final(r),
    {
        self.anchor.0 = Some(anchor);
        self
    }

    /// Sets the second anchor.
    pub fn anchor_2(&mut self, anchor: LayerAnchor) -> (r: &mut Self)
        ensures
            (*r)@ == (BuilderView { anchor: (old(self)@.anchor.0, Some(anchor)), ..old(self)@ }),
            *final(self) == *final(r),
    {
        self.anchor.1 = Some(anchor);
        self
    }

    /// Sets the margins: top, right, bottom, left.
    pub fn margins(&mut self, top: i32, right: i32, bottom: i32, left: i32) -> (r: &mut Self)
        ensures
            (*r)@ == (BuilderView { margin: (top, right, bottom, left), ..old(self)@ }),
            *final(self) == *final(r),
    {
        self.margin = (top, right, bottom, left);
        self
    }

    /// Sets the layer.
    pub fn layer_type(&mut self, layer: Layer) -> (r: &mut Self)
        ensures
            (*r)@ == (BuilderView { layer_type: Some(layer), ..old(self)@ }),
            *final(self) == *final(r),
    {
        self.layer_type = Some(layer);
        self
    }

    /// Sets the relation with the keyboard.
    pub fn board_interactivity(&mut self, board: KeyboardInteractivity) -> (r: &mut Self)
        ensures
            (*r)@ == (BuilderView { board_interactivity: board, ..old(self)@ }),
            *final(self) == *final(r),
    {
        self.board_interactivity = board;
        self
    }

    /// Sets the exclusive zone.
    pub fn exclusive_zone(&mut self, dimention: i32) -> (r: &mut Self)
        ensures
            (*r)@ == (BuilderView { exclusive_zone: Some(dimention), ..old(self)@ }),
            *final(self) == *final(r),
    {
        self.exclusive_zone = Some(dimention);
        self
    }

    /// Sets the monitor.
    pub fn monitor(&mut self, name: String) -> (r: &mut Self)
        ensures
            (*r)@ == (BuilderView { monitor_name: Some(name@), ..old(self)@ }),
            *final(self) == *final(r),
    {
        self.monitor_name = Some(name);
        self
    }

    /// Sets the scrolling direction.
    pub fn natural_scroll(&mut self, scroll: bool) -> (r: &mut Self)
        ensures
            (*r)@ == (BuilderView { natural_scroll: scroll, ..old(self)@ }),
            *final(self) == *final(r),
    {
        self.natural_scroll = scroll;
        self
    }

    /// Creates the configuration; fails when the width or the height is not
    /// set or set to zero.
    pub fn build(&self) -> (r: Result<WindowConf, BuildError>)
        ensures
            match r {
                Ok(conf) => built(self@) == Ok::<WindowConfView, BuildError>(conf@),
                Err(e) => built(self@) == Err::<WindowConfView, BuildError>(e),
            },
    {
        if self.max_width == 0 {
            return Err(BuildError::MissingWidth);
        }
        if self.max_height == 0 {
            return Err(BuildError::MissingHeight);
        }
        Ok(
            WindowConf {
                width: self.max_width,
                height: self.max_height,
                anchor: self.anchor,
                margin: self.margin,
                layer_type: match self.layer_type {
                    None => Layer::Top,
                    Some(val) => val,
                },
                board_interactivity: self.board_interactivity,
                exclusive_zone: self.exclusive_zone,
                monitor_name: crate::vault::clone_opt_string(&self.monitor_name),
                natural_scroll: self.natural_scroll,
            },
        )
    }
}

impl Default for WindowConfBuilder {
    fn default() -> (b: Self)
        ensures
            b@ == WindowConfBuilder::empty(),
    {
        WindowConfBuilder {
            max_width: 0,
            max_height: 0,
            anchor: (None, None),
            margin: (0, 0, 0, 0),
            layer_type: None,
            board_interactivity: KeyboardInteractivity::NoFocus,
            exclusive_zone: None,
            monitor_name: None,
            natural_scroll: false,
        }
    }
}

} // verus!
verus! {

/// The settings a layer surface receives from a configuration: its size,
/// margins, keyboard relation, layer, the union of its anchors (none when no
/// anchor is given) and its exclusive zone.
#[derive(Debug, Clone, Copy, PartialEq, Eq)]
pub struct LayerSettings {
    pub size: (u32, u32),
    pub margin: (i32, i32, i32, i32),
    pub keyboard: KeyboardInteractivity,
    pub layer: Layer,
    pub anchor: Option<LayerAnchor>,
    pub exclusive_zone: Option<i32>,
}

/// The bits of the union of the given anchors, or `None` when there is none.
pub open spec fn combined_anchor_bits(anchor: (Option<LayerAnchor>, Option<LayerAnchor>)) -> Option<
    u32,
> {
    match anchor {
        (None, None) => None,
        (Some(a), None) => Some(a.spec_bits()),
        (None, Some(b)) => Some(b.spec_bits()),
        (Some(a), Some(b)) => Some(a.spec_bits() | b.spec_bits()),
    }
}

/// Computes the settings a layer surface is given for the configuration.
pub fn layer_settings(conf: &WindowConf) -> (s: LayerSettings)
    ensures
        s.size == (conf.width, conf.height),
        s.margin == conf.margin,
        s.keyboard == conf.board_interactivity,
        s.layer == conf.layer_type,
        s.exclusive_zone == conf.exclusive_zone,
        match s.anchor {
            Some(a) => combined_anchor_bits(conf.anchor) == Some(a.spec_bits()),
            None => combined_anchor_bits(conf.anchor) is None,
        },
{
    let anchor = match conf.anchor {
        (None, None) => None,
        (Some(a), None) => Some(a),
        (None, Some(b)) => Some(b),
        (Some(a), Some(b)) => Some(a.union(b)),
    };
    LayerSettings {
        size: (conf.width, conf.height),
        margin: conf.margin,
        keyboard: conf.board_interactivity,
        layer: conf.layer_type,
        anchor,
        exclusive_zone: conf.exclusive_zone,
    }
}

/// The anchor of a configuration that gives exactly one.
pub open spec fn single_anchor(anchor: (Option<LayerAnchor>, Option<LayerAnchor>)) -> Option<LayerAnchor> {
    match anchor {
        (Some(a), None) => Some(a),
        (None, Some(b)) => Some(b),
        _ => None,
    }
}

/// The exclusive zone of a configuration that only says whether the widget
/// reserves space: a widget anchored to the left or right edge alone
/// reserves its width, one anchored to the top or bottom edge alone its
/// height; a widget anchored to a corner, to two edges or to none reserves
/// nothing.
pub open spec fn edge_zone(
    anchor: (Option<LayerAnchor>, Option<LayerAnchor>),
    exclusive: bool,
    width: u32,
    height: u32,
) -> Option<i32> {
    if !exclusive {
        None
    } else {
        match single_anchor(anchor) {
            Some(a) => if a.spec_bits() == 4 || a.spec_bits() == 8 {
                Some(width as i32)
            } else if a.spec_bits() == 1 || a.spec_bits() == 2 {
                Some(height as i32)
            } else {
                None
            },
            None => None,
        }
    }
}

/// Derives the exclusive zone of a widget from the edge it is anchored to.
pub fn edge_exclusive_zone(
    anchor: (Option<LayerAnchor>, Option<LayerAnchor>),
    exclusive: bool,
    width: u32,
    height: u32,
) -> (z: Option<i32>)
    ensures
        z == edge_zone(anchor, exclusive, width, height),
{
    if !exclusive {
        return None;
    }
    let single = match anchor {
        (Some(a), None) => Some(a),
        (None, Some(b)) => Some(b),
        _ => None,
    };
    match single {
        Some(a) => {
            let bits = a.bits();
            if bits == 4 || bits == 8 {
                Some(width as i32)
            } else if bits == 1 || bits == 2 {
                Some(height as i32)
            } else {
                None
            }
        },
        None => None,
    }
}

/// A widget anchored to the top or bottom edge alone reserves its height,
/// one anchored to the left or right edge alone its width, whichever of the
/// two anchor slots holds the edge; a widget anchored to two edges, to a
/// corner, or to none, or that reserves no space, reserves nothing.
pub proof fn lemma_edge_zone_by_edge(a: LayerAnchor, b: LayerAnchor, width: u32, height: u32)
    ensures
        a.spec_bits() == 1 ==> edge_zone((Some(a), None), true, width, height) == Some(height as i32)
            && edge_zone((None, Some(a)), true, width, height) == Some(height as i32),
        a.spec_bits() == 2 ==> edge_zone((Some(a), None), true, width, height) == Some(height as i32)
            && edge_zone((None, Some(a)), true, width, height) == Some(height as i32),
        a.spec_bits() == 4 ==> edge_zone((Some(a), None), true, width, height) == Some(width as i32)
            && edge_zone((None, Some(a)), true, width, height) == Some(width as i32),
        a.spec_bits() == 8 ==> edge_zone((Some(a), None), true, width, height) == Some(width as i32)
            && edge_zone((None, Some(a)), true, width, height) == Some(width as i32),
        a.spec_bits() != 1 && a.spec_bits() != 2 && a.spec_bits() != 4 && a.spec_bits() != 8
            ==> edge_zone((Some(a), None), true, width, height) is None,
        edge_zone((Some(a), Some(b)), true, width, height) is None,
        edge_zone((None, None), true, width, height) is None,
        edge_zone((Some(a), None), false, width, height) is None,
{
}

/// The order in which the two anchors are given does not matter.
pub proof fn lemma_anchor_order_irrelevant(a: Option<LayerAnchor>, b: Option<LayerAnchor>)
    ensures
        combined_anchor_bits((a, b)) == combined_anchor_bits((b, a)),
{
    if let (Some(x), Some(y)) = (a, b) {
        let p = x.spec_bits();
        let q = y.spec_bits();
        assert(p | q == q | p) by (bit_vector);
    }
}

/// Anchoring to the same edge twice is anchoring to it once.
pub proof fn lemma_anchor_repeat_irrelevant(a: LayerAnchor)
    ensures
        combined_anchor_bits((Some(a), Some(a))) == combined_anchor_bits((Some(a), None)),
{
    let p = a.spec_bits();
    assert(p | p == p) by (bit_vector);
}

/// A built configuration has a nonzero size, and keeps every part that was
/// set on the builder, with the layer `Top` when none was set.
pub proof fn lemma_build_keeps_parts(b: BuilderView)
    requires
        b.max_width != 0,
        b.max_height != 0,
    ensures
        built(b) matches Ok(c) && c.width == b.max_width && c.height == b.max_height && c.anchor
            == b.anchor && c.margin == b.margin && c.board_interactivity == b.board_interactivity
            && c.exclusive_zone == b.exclusive_zone && c.monitor_name == b.monitor_name
            && c.natural_scroll == b.natural_scroll && (b.layer_type is None ==> c.layer_type
            == Layer::Top),
{
}

/// A builder with a zero width or height never builds.
pub proof fn lemma_build_needs_size(b: BuilderView)
    ensures
        built(b) is Err <==> (b.max_width == 0 || b.max_height == 0),
{
}

} // verus!
