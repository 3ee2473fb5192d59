//! The declarative input: a session name and an ordered list of window
//! specifications.

use vstd::prelude::*;

verus! {

/// One window to materialize: its name, the shell lines to type into it,
/// the working directory to change to first, and whether the window is to
/// be selected once the session is built.
pub struct WindowSpec {
    pub name: String,
    pub actions: Vec<String>,
    pub pwd: String,
    pub select: bool,
}

/// Mathematical model of a `WindowSpec`.
pub ghost struct WindowModel {
    pub name: Seq<char>,
    pub actions: Seq<Seq<char>>,
    pub pwd: Seq<char>,
    pub select: bool,
}

impl View for WindowSpec {
    type V = WindowModel;

    open spec fn view(&self) -> WindowModel {
        WindowModel {
            name: self.name@,
            actions: self.actions.deep_view(),
            pwd: self.pwd@,
            select: self.select,
        }
    }
}

impl DeepView for WindowSpec {
    type V = WindowModel;

    open spec fn deep_view(&self) -> WindowModel {
        self.view()
    }
}

/// A full configuration: the session name and the windows in declaration
/// order.
pub struct Config {
    pub session: String,
    pub windows: Vec<WindowSpec>,
}

/// Mathematical model of a `Config`.
pub ghost struct ConfigModel {
    pub session: Seq<char>,
    pub windows: Seq<WindowModel>,
}

impl View for Config {
    type V = ConfigModel;

    open spec fn view(&self) -> ConfigModel {
        ConfigModel { session: self.session@, windows: self.windows.deep_view() }
    }
}

} // verus!
