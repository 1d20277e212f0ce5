use vstd::prelude::*;

verus! {

/// Which foreground windows have their input tracked.
///
/// `mode` is one of "disabled", "all", "title", "process", "hwnd" or "class";
/// `value` is what the foreground window's attribute is matched against.
#[derive(Debug, Clone)]
pub struct TargetConfig {
    pub mode: String,
    pub value: Option<String>,
}

impl Default for TargetConfig {
    fn default() -> (r: Self)
        ensures
            r.mode@ == "disabled"@,
            r.value is None,
    {
        TargetConfig { mode: String::from_str("disabled"), value: None }
    }
}

/// Appearance of the overlay's key chips.
#[derive(Debug, Clone)]
pub struct OverlayConfig {
    pub fade_in_ms: u32,
    pub fade_out_ms: u32,
    pub chip_bg: String,
    pub chip_fg: String,
    pub chip_gap: u32,
    pub chip_pad_v: u32,
    pub chip_pad_h: u32,
    pub chip_radius: u32,
    pub chip_font_px: u32,
    pub chip_font_weight: u32,
    pub background: String,
    pub cols: u32,
    pub rows: u32,
    pub single_line: bool,
    pub single_line_scale: u32,
    pub align: String,
    pub direction: String,
    pub color_mode: String,
    pub grad_color1: String,
    pub grad_color2: String,
    pub grad_dir: String,
}

/// Colour mode used when a stored overlay configuration names none.
pub fn default_color_mode() -> (r: String)
    ensures
        r@ == "solid"@,
{
    String::from_str("solid")
}

/// First gradient colour used when a stored overlay configuration names none.
pub fn default_grad_color1() -> (r: String)
    ensures
        r@ == "#000000"@,
{
    String::from_str("#000000")
}

/// Second gradient colour used when a stored overlay configuration names none.
pub fn default_grad_color2() -> (r: String)
    ensures
        r@ == "#333333"@,
{
    String::from_str("#333333")
}

/// Gradient direction used when a stored overlay configuration names none.
pub fn default_grad_dir() -> (r: String)
    ensures
        r@ == "to bottom"@,
{
    String::from_str("to bottom")
}

impl Default for OverlayConfig {
    fn default() -> (r: Self)
        ensures
            r.fade_in_ms == 120,
            r.fade_out_ms == 120,
            r.chip_bg@ == "#000000"@,
            r.chip_fg@ == "#ffffff"@,
            r.chip_gap == 8,
            r.chip_pad_v == 10,
            r.chip_pad_h == 14,
            r.chip_radius == 10,
            r.chip_font_px == 24,
            r.chip_font_weight == 700,
            r.background@ == "rgba(0,0,0,0)"@,
            r.cols == 8,
            r.rows == 1,
            !r.single_line,
            r.single_line_scale == 90,
            r.align@ == "left"@,
            r.direction@ == "ltr"@,
            r.color_mode@ == "solid"@,
            r.grad_color1@ == "#000000"@,
            r.grad_color2@ == "#333333"@,
            r.grad_dir@ == "to bottom"@,
    {
        OverlayConfig {
            fade_in_ms: 120,
            fade_out_ms: 120,
            chip_bg: String::from_str("#000000"),
            chip_fg: String::from_str("#ffffff"),
            chip_gap: 8,
            chip_pad_v: 10,
            chip_pad_h: 14,
            chip_radius: 10,
            chip_font_px: 24,
            chip_font_weight: 700,
            background: String::from_str("rgba(0,0,0,0)"),
            cols: 8,
            rows: 1,
            single_line: false,
            single_line_scale: 90,
            align: String::from_str("left"),
            direction: String::from_str("ltr"),
            color_mode: default_color_mode(),
            grad_color1: default_grad_color1(),
            grad_color2: default_grad_color2(),
            grad_dir: default_grad_dir(),
        }
    }
}

/// Background of the overlay or of a chip: "solid", "gradient" or "image".
#[derive(Debug, Clone)]
pub struct BackgroundConfig {
    pub transparent: bool,
    pub mode: String,
    pub color: Option<String>,
    pub gradient: Option<GradientConfig>,
    /// Base64-encoded image data.
    pub image: Option<String>,
}

impl Default for BackgroundConfig {
    fn default() -> (r: Self)
        ensures
            r.transparent,
            r.mode@ == "solid"@,
            r.color is Some && r.color->0@ == "#000000"@,
            r.gradient is None,
            r.image is None,
    {
        BackgroundConfig {
            transparent: true,
            mode: String::from_str("solid"),
            color: Some(String::from_str("#000000")),
            gradient: None,
            image: None,
        }
    }
}

/// A two-colour linear gradient.
#[derive(Debug, Clone)]
pub struct GradientConfig {
    pub color1: String,
    pub color2: String,
    /// A CSS direction such as "to bottom" or "to right".
    pub direction: String,
}

impl Default for GradientConfig {
    fn default() -> (r: Self)
        ensures
            r.color1@ == "#000000"@,
            r.color2@ == "#333333"@,
            r.direction@ == "to bottom"@,
    {
        GradientConfig {
            color1: String::from_str("#000000"),
            color2: String::from_str("#333333"),
            direction: String::from_str("to bottom"),
        }
    }
}

/// Font of the chip labels.
#[derive(Debug, Clone)]
pub struct FontConfig {
    pub family: String,
    /// A web font URL, if the family is not installed locally.
    pub url: Option<String>,
    pub size: u32,
    pub weight: u32,
    /// "solid" or "gradient".
    pub color_mode: String,
    pub color: String,
    pub gradient: Option<GradientConfig>,
    /// Hides the label text.
    pub transparent: bool,
    pub shadow: bool,
}

/// Font family used when a stored font configuration names none.
pub fn default_font_family() -> (r: String)
    ensures
        r@ == "system-ui"@,
{
    String::from_str("system-ui")
}

/// Font URL used when a stored font configuration names none.
pub fn default_font_url() -> (r: Option<String>)
    ensures
        r is None,
{
    None
}

/// Font size used when a stored font configuration names none.
pub fn default_font_size() -> (r: u32)
    ensures
        r == 24,
{
    24
}

/// Font weight used when a stored font configuration names none.
pub fn default_font_weight() -> (r: u32)
    ensures
        r == 700,
{
    700
}

/// Font colour mode used when a stored font configuration names none.
pub fn default_color_mode_str() -> (r: String)
    ensures
        r@ == "solid"@,
{
    String::from_str("solid")
}

/// Font colour used when a stored font configuration names none.
pub fn default_font_color() -> (r: String)
    ensures
        r@ == "#ffffff"@,
{
    String::from_str("#ffffff")
}

/// Whether labels cast a shadow when a stored font configuration says nothing.
pub fn default_shadow() -> (r: bool)
    ensures
        r,
{
    true
}

impl Default for FontConfig {
    fn default() -> (r: Self)
        ensures
            r.family@ == "system-ui"@,
            r.url is None,
            r.size == 24,
            r.weight == 700,
            r.color_mode@ == "solid"@,
            r.color@ == "#ffffff"@,
            r.gradient is None,
            !r.transparent,
            r.shadow,
    {
        FontConfig {
            family: default_font_family(),
            url: default_font_url(),
            size: default_font_size(),
            weight: default_font_weight(),
            color_mode: default_color_mode_str(),
            color: default_font_color(),
            gradient: None,
            transparent: false,
            shadow: default_shadow(),
        }
    }
}

/// A style applied to one key, a group of keys, or all keys.
#[derive(Debug, Clone)]
pub struct StyleGroup {
    pub id: String,
    pub name: String,
    /// "individual", "group" or "all".
    pub group_type: String,
    /// The labels styled; empty for "all".
    pub keys: Vec<String>,
    pub chip_bg: BackgroundConfig,
    pub font: FontConfig,
}

/// The overlay's style: background, per-key style groups, default font and
/// chip layout.
#[derive(Debug, Clone)]
pub struct KeyStyleConfig {
    pub background: BackgroundConfig,
    pub style_groups: Vec<StyleGroup>,
    pub default_font: FontConfig,
    pub chip_gap: u32,
    pub chip_pad_v: u32,
    pub chip_pad_h: u32,
    pub chip_radius: u32,
}

/// Chip gap used when a stored style names none.
pub fn default_chip_gap() -> (r: u32)
    ensures
        r == 8,
{
    8
}

/// Vertical chip padding used when a stored style names none.
pub fn default_chip_pad_v() -> (r: u32)
    ensures
        r == 10,
{
    10
}

/// Horizontal chip padding used when a stored style names none.
pub fn default_chip_pad_h() -> (r: u32)
    ensures
        r == 14,
{
    14
}

/// Chip corner radius used when a stored style names none.
pub fn default_chip_radius() -> (r: u32)
    ensures
        r == 10,
{
    10
}

/// Label colour of a keyed image used when a stored entry names none.
pub fn default_text_color() -> (r: Option<String>)
    ensures
        r is Some && r->0@ == "#ffffff"@,
{
    Some(String::from_str("#ffffff"))
}

impl Default for KeyStyleConfig {
    fn default() -> (r: Self)
        ensures
            r.background.transparent,
            r.background.mode@ == "solid"@,
            r.background.color is Some && r.background.color->0@ == "#000000"@,
            r.background.gradient is None,
            r.background.image is None,
            r.style_groups@.len() == 0,
            r.default_font.family@ == "system-ui"@,
            r.default_font.url is None,
            r.default_font.size == 24,
            r.default_font.weight == 700,
            r.default_font.color_mode@ == "solid"@,
            r.default_font.color@ == "#ffffff"@,
            r.default_font.gradient is None,
            !r.default_font.transparent,
            r.default_font.shadow,
            r.chip_gap == 8,
            r.chip_pad_v == 10,
            r.chip_pad_h == 14,
            r.chip_radius == 10,
    {
        KeyStyleConfig {
            background: BackgroundConfig::default(),
            style_groups: Vec::new(),
            default_font: FontConfig::default(),
            chip_gap: default_chip_gap(),
            chip_pad_v: default_chip_pad_v(),
            chip_pad_h: default_chip_pad_h(),
            chip_radius: default_chip_radius(),
        }
    }
}

/// Settings of the launcher: the server port, the interface language, and
/// whether the program starts with the session.
#[derive(Debug, Clone)]
pub struct LauncherSettings {
    pub port: u16,
    pub language: String,
    pub run_on_startup: bool,
}

impl Default for LauncherSettings {
    fn default() -> (r: Self)
        ensures
            r.port == 8000,
            r.language@ == "ko"@,
            !r.run_on_startup,
    {
        LauncherSettings { port: 8000, language: String::from_str("ko"), run_on_startup: false }
    }
}

} // verus!
