use vstd::prelude::*;

use crate::action::KeyBindings;
use crate::keys::Key;
use crate::page::ResourcePage;
use crate::resource::{ContainerRecord, ImageRecord};

verus! {

/// Containers: `d` deletes after confirmation, `r` starts, `s` stops, `a` attaches.
pub open spec fn container_bindings() -> KeyBindings {
    KeyBindings {
        delete: Key::Char('d'),
        start: Some(Key::Char('r')),
        stop: Some(Key::Char('s')),
        attach: Some(Key::Char('a')),
    }
}

/// Images: ctrl-`d` deletes after confirmation; nothing else acts on an image.
pub open spec fn image_bindings() -> KeyBindings {
    KeyBindings { delete: Key::Ctrl('d'), start: None, stop: None, attach: None }
}

/// The page of containers.
pub struct Containers {
    pub page: ResourcePage<ContainerRecord>,
}

/// The page of images.
pub struct Images {
    pub page: ResourcePage<ImageRecord>,
}

impl Containers {
    /// An empty containers page, shown or hidden; the host fills it by
    /// `set_visible` once the first list has been fetched.
    pub fn new(visible: bool) -> (r: Self)
        ensures
            r.page.wf(),
            r.page.title()@ == "Containers"@,
            r.page.shown() == visible,
            r.page.keys() == container_bindings(),
            r.page.records().len() == 0,
            r.page.index() == None::<int>,
            r.page.dialog_state() is Closed,
            !r.page.busy(),
    {
        let bindings = KeyBindings {
            delete: Key::Char('d'),
            start: Some(Key::Char('r')),
            stop: Some(Key::Char('s')),
            attach: Some(Key::Char('a')),
        };
        Containers { page: ResourcePage::new("Containers".to_owned(), visible, bindings) }
    }
}

impl Images {
    /// An empty, hidden images page.
    pub fn new() -> (r: Self)
        ensures
            r.page.wf(),
            r.page.title()@ == "Images"@,
            !r.page.shown(),
            r.page.keys() == image_bindings(),
            r.page.records().len() == 0,
            r.page.index() == None::<int>,
            r.page.dialog_state() is Closed,
            !r.page.busy(),
    {
        let bindings = KeyBindings { delete: Key::Ctrl('d'), start: None, stop: None, attach: None };
        Images { page: ResourcePage::new("Images".to_owned(), false, bindings) }
    }
}

} // verus!
