//! The application shell's navigation: an explicit page stack rooted at the
//! home page, driven by the tagged navigation result each page-event step
//! returns, and the application-level messages pages can emit.

use vstd::prelude::*;

verus! {

/// A message addressed to the application shell itself rather than to a
/// page: place text on the system clipboard, or open a link.
#[derive(Debug, Clone)]
pub enum ApplicationMessage {
    PutContentInClipboard(String),
    OpenLink(String),
}

/// The kinds of page the application shows, as a closed set: the home page
/// (the list of definitions) and the record page (one definition's form).
#[derive(Debug, Clone, Copy, PartialEq, Eq, Structural)]
pub enum PageKind {
    Home,
    Record,
}

/// What one page-event step asks of the navigation host: go to a new page,
/// go back one page, or stay where it is.
pub enum Navigation {
    GoTo(PageKind),
    Back,
    Stay,
}

/// The page stack of the application: the bottom entry is always the home
/// page, and the top entry is the page currently shown.
pub struct PageStack {
    pub pages: Vec<PageKind>,
}

impl PageStack {
    /// The stack always holds at least one page, and the home page is at
    /// its bottom.
    pub open spec fn well_formed(&self) -> bool {
        self.pages@.len() >= 1 && self.pages@[0] == PageKind::Home
    }

    /// A fresh stack: the home page alone.
    pub fn new() -> (r: PageStack)
        ensures
            r.well_formed(),
            r.pages@ == seq![PageKind::Home],
    {
        let mut pages: Vec<PageKind> = Vec::new();
        pages.push(PageKind::Home);
        proof {
            assert(pages@ =~= seq![PageKind::Home]);
        }
        PageStack { pages }
    }

    /// The page currently shown: the top of the stack.
    pub fn current(&self) -> (r: PageKind)
        requires
            self.well_formed(),
        ensures
            r == self.pages@.last(),
    {
        self.pages[self.pages.len() - 1]
    }

    /// Applies one navigation result: `GoTo` pushes the new page, `Back`
    /// pops the shown page unless the home page is the only one left, and
    /// `Stay` changes nothing. The home page is never popped.
    pub fn apply(&mut self, nav: Navigation)
        requires
            old(self).well_formed(),
        ensures
            final(self).well_formed(),
            match nav {
                Navigation::GoTo(p) => final(self).pages@ == old(self).pages@.push(p),
                Navigation::Back => final(self).pages@ == if old(self).pages@.len() > 1 {
                    old(self).pages@.drop_last()
                } else {
                    old(self).pages@
                },
                Navigation::Stay => final(self).pages@ == old(self).pages@,
            },
    {
        match nav {
            Navigation::GoTo(page) => {
                self.pages.push(page);
            },
            Navigation::Back => {
                if self.pages.len() > 1 {
                    let _last = self.pages.pop();
                    proof {
                        assert(self.pages@ =~= old(self).pages@.drop_last());
                    }
                }
            },
            Navigation::Stay => {
            },
        }
    }
}

} // verus!
