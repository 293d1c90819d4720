//! Version and build info: a panel of fixed text.

use crate::view::{TUIStatusListener, ViewFault};
use vstd::prelude::*;
use vstd::string::*;

verus! {

/// The name under which the version panel is mounted.
pub const VIEW_VERSION: &'static str = "version";

/// What the build metadata provider has to say, for display only.
pub struct VersionInfo {
    /// One line: the package and its version.
    pub basic_info: String,
    /// How and for what the package was built.
    pub detailed_info: String,
}

/// The version panel. It shows the basic line, a blank line and the detailed
/// text, and no status update changes it.
pub struct TUIVersionView {
    pub basic_info: String,
    pub detailed_info: String,
}

impl TUIVersionView {
    /// The panel that shows `info`.
    pub fn create(info: VersionInfo) -> (panel: Self)
        ensures
            panel.basic_info == info.basic_info,
            panel.detailed_info == info.detailed_info,
    {
        TUIVersionView { basic_info: info.basic_info, detailed_info: info.detailed_info }
    }

    /// The text of the panel, from the top down.
    pub open spec fn text(self) -> Seq<Seq<char>> {
        seq![self.basic_info@, " "@, self.detailed_info@]
    }

    /// The text of the panel, from the top down.
    pub fn lines(&self) -> (lines: Vec<String>)
        ensures
            lines@.len() == 3,
            forall|i: int| 0 <= i < 3 ==> (#[trigger] lines@[i])@ == self.text()[i],
    {
        let mut lines: Vec<String> = Vec::new();
        lines.push(self.basic_info.clone());
        lines.push(String::from_str(" "));
        lines.push(self.detailed_info.clone());
        lines
    }
}

impl<S: Copy> TUIStatusListener<S> for TUIVersionView {
    /// Version information does not depend on the status.
    open spec fn updated(self, snapshot: S) -> Self {
        self
    }

    fn update(&mut self, snapshot: &S) -> (r: Result<(), ViewFault>)
        ensures
            r is Ok,
    {
        Ok(())
    }
}

} // verus!
