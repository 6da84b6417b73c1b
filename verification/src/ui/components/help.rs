//! The help overlay: the keys of the dashboard and what they do.

use vstd::prelude::*;

verus! {

/// One line of the help overlay.
#[derive(Debug, Clone, Copy, PartialEq, Eq)]
pub enum HelpLine {
    /// The heading of a group of keys.
    Heading(&'static str),
    /// A key, or several, and what it does.
    Entry { keys: &'static str, action: &'static str },
    /// An empty line between two groups.
    Blank,
}

/// The help overlay.
pub struct HelpComponent {}

/// The lines of the help overlay, from top to bottom.
pub open spec fn spec_help_lines() -> Seq<HelpLine> {
    seq![
        HelpLine::Heading("Navigation:"),
        HelpLine::Entry { keys: "Tab/Shift+Tab", action: "   Switch between views" },
        HelpLine::Entry { keys: "j/k, ↓/↑", action: "      Navigate up/down" },
        HelpLine::Blank,
        HelpLine::Heading("Actions:"),
        HelpLine::Entry { keys: "r", action: "             Refresh data" },
        HelpLine::Entry { keys: "Enter", action: "         Select/Open" },
        HelpLine::Entry {
            keys: "v",
            action: "             Open issue in browser (in issues view)",
        },
        HelpLine::Entry {
            keys: "d",
            action: "             Toggle issue details view (in issues view)",
        },
        HelpLine::Entry { keys: "n", action: "             Create new issue (in issues view)" },
        HelpLine::Blank,
        HelpLine::Heading("Views:"),
        HelpLine::Entry { keys: "1", action: "             Issues view" },
        HelpLine::Entry { keys: "2", action: "             Projects view" },
        HelpLine::Entry { keys: "3", action: "             Teams view" },
        HelpLine::Blank,
        HelpLine::Heading("Other:"),
        HelpLine::Entry { keys: "?", action: "             Show/hide this help" },
        HelpLine::Entry { keys: "q/Ctrl+C", action: "      Quit application" },
    ]
}

impl HelpComponent {
    /// The lines of the help overlay, from top to bottom: four groups of
    /// keys, each under its heading, with an empty line between two groups.
    pub fn lines() -> (r: Vec<HelpLine>)
        ensures
            r@ == spec_help_lines(),
    {
        let mut r: Vec<HelpLine> = Vec::new();
        r.push(HelpLine::Heading("Navigation:"));
        r.push(HelpLine::Entry { keys: "Tab/Shift+Tab", action: "   Switch between views" });
        r.push(HelpLine::Entry { keys: "j/k, ↓/↑", action: "      Navigate up/down" });
        r.push(HelpLine::Blank);
        r.push(HelpLine::Heading("Actions:"));
        r.push(HelpLine::Entry { keys: "r", action: "             Refresh data" });
        r.push(HelpLine::Entry { keys: "Enter", action: "         Select/Open" });
        r.push(
            HelpLine::Entry {
                keys: "v",
                action: "             Open issue in browser (in issues view)",
            },
        );
        r.push(
            HelpLine::Entry {
                keys: "d",
                action: "             Toggle issue details view (in issues view)",
            },
        );
        r.push(
            HelpLine::Entry { keys: "n", action: "             Create new issue (in issues view)" },
        );
        r.push(HelpLine::Blank);
        r.push(HelpLine::Heading("Views:"));
        r.push(HelpLine::Entry { keys: "1", action: "             Issues view" });
        r.push(HelpLine::Entry { keys: "2", action: "             Projects view" });
        r.push(HelpLine::Entry { keys: "3", action: "             Teams view" });
        r.push(HelpLine::Blank);
        r.push(HelpLine::Heading("Other:"));
        r.push(HelpLine::Entry { keys: "?", action: "             Show/hide this help" });
        r.push(HelpLine::Entry { keys: "q/Ctrl+C", action: "      Quit application" });
        assert(r@ =~= spec_help_lines());
        r
    }
}

} // verus!
