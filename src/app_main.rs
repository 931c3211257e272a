//! The configuration a windowing shell starts an application from.
use vstd::prelude::*;

verus! {

/// An application together with the title of the window it is shown in.
pub struct AppLauncher<A> {
    title: String,
    app: A,
}

impl<A> AppLauncher<A> {
    /// The window title, as characters.
    pub closed spec fn title_view(&self) -> Seq<char> {
        self.title@
    }

    /// The application that will be run.
    pub closed spec fn app_view(&self) -> A {
        self.app
    }

    /// A launcher for `app`, titled "Xilem app".
    pub fn new(app: A) -> (r: Self)
        ensures
            r.title_view() == "Xilem app"@,
            r.app_view() == app,
    {
        AppLauncher { title: String::from_str("Xilem app"), app }
    }

    /// The same launcher with the window title replaced.
    pub fn title(self, title: String) -> (r: Self)
        ensures
            r.title_view() == title@,
            r.app_view() == self.app_view(),
    {
        AppLauncher { title, app: self.app }
    }

    /// The window title.
    pub fn window_title(&self) -> (r: &str)
        ensures
            r@ == self.title_view(),
    {
        self.title.as_str()
    }

    /// The application, handed over to whoever runs the event loop.
    pub fn into_app(self) -> (r: A)
        ensures
            r == self.app_view(),
    {
        self.app
    }
}

} // verus!
