use sftpman_ui::nav::Navigation;
use sftpman_ui::nav::PageKind;
use sftpman_ui::nav::PageStack;

#[test]
fn page_stack_starts_at_home() {
    let stack = PageStack::new();
    assert_eq!(stack.current(), PageKind::Home);
}

#[test]
fn page_stack_pushes_and_pops() {
    let mut stack = PageStack::new();
    stack.apply(Navigation::GoTo(PageKind::Record));
    assert_eq!(stack.current(), PageKind::Record);
    stack.apply(Navigation::Stay);
    assert_eq!(stack.current(), PageKind::Record);
    stack.apply(Navigation::Back);
    assert_eq!(stack.current(), PageKind::Home);
}

#[test]
fn page_stack_never_pops_the_home_page() {
    let mut stack = PageStack::new();
    stack.apply(Navigation::Back);
    assert_eq!(stack.current(), PageKind::Home);
    assert_eq!(stack.pages.len(), 1);
}
