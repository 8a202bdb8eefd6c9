use vstd::prelude::*;
use vstd::string::StringExecFns;

verus! {

/// Title of the window when the builder was given none.
pub const DEFAULT_TITLE: &'static str = "CHIRP-8";

/// Logical width of the window when the builder was given no size.
pub const DEFAULT_WIDTH: u32 = 640;

/// Logical height of the window when the builder was given no size.
pub const DEFAULT_HEIGHT: u32 = 480;

/// Ways in which bringing up or presenting the display can fail.
#[derive(Clone, Debug, PartialEq, Eq)]
pub enum DisplayError {
    /// The window could not be created.
    WindowCreation,
    /// The window's context could not be made current.
    ContextCurrent,
    /// The window's buffers could not be swapped.
    SwapBuffers,
    /// The shader program failed; carries the shader's own description.
    ShaderError(String),
}

/// Settings for the window that presents the machine's screen. Each setting
/// is optional and falls back to a default when the window is built.
pub struct DisplayBuilder {
    title: Option<String>,
    size: Option<(u32, u32)>,
}

/// The title that a window built from `title` gets.
pub open spec fn resolved_title(title: Option<Seq<char>>) -> Seq<char> {
    match title {
        Some(t) => t,
        None => DEFAULT_TITLE@,
    }
}

/// The logical size that a window built from `size` gets.
pub open spec fn resolved_size(size: Option<(u32, u32)>) -> (u32, u32) {
    match size {
        Some(s) => s,
        None => (DEFAULT_WIDTH, DEFAULT_HEIGHT),
    }
}

impl DisplayBuilder {
    /// The title that was set, if any.
    pub closed spec fn title_view(&self) -> Option<Seq<char>> {
        match self.title {
            Some(t) => Some(t@),
            None => None,
        }
    }

    /// The size that was set, as width and height, if any.
    pub closed spec fn size_view(&self) -> Option<(u32, u32)> {
        self.size
    }

    /// A builder with no setting made.
    pub fn new() -> (r: Self)
        ensures
            r.title_view() == None::<Seq<char>>,
            r.size_view() == None::<(u32, u32)>,
    {
        Self { title: None, size: None }
    }

    /// Sets the window's title, replacing any earlier one.
    pub fn with_title(self, title: &str) -> (r: Self)
        ensures
            r.title_view() == Some(title@),
            r.size_view() == self.size_view(),
    {
        let mut b = self;
        b.title = Some(String::from_str(title));
        b
    }

    /// Sets the window's logical size, replacing any earlier one.
    pub fn with_size(self, width: u32, height: u32) -> (r: Self)
        ensures
            r.size_view() == Some((width, height)),
            r.title_view() == self.title_view(),
    {
        let mut b = self;
        b.size = Some((width, height));
        b
    }

    /// The title that the window gets: the one that was set, else the
    /// default.
    pub fn window_title(&self) -> (r: String)
        ensures
            r@ == resolved_title(self.title_view()),
    {
        match &self.title {
            Some(t) => t.clone(),
            None => String::from_str(DEFAULT_TITLE),
        }
    }

    /// The logical size, as width and height, that the window gets: the one
    /// that was set, else the default.
    pub fn window_size(&self) -> (r: (u32, u32))
        ensures
            r == resolved_size(self.size_view()),
    {
        match self.size {
            Some(s) => s,
            None => (DEFAULT_WIDTH, DEFAULT_HEIGHT),
        }
    }
}

} // verus!
