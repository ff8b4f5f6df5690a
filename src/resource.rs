use vstd::prelude::*;

verus! {

/// A record of the snapshot that a page shows: anything the backend can name.
pub trait Resource {
    /// The identifier the backend knows the resource by.
    spec fn spec_id(&self) -> Seq<char>;

    fn id(&self) -> (r: String)
        ensures
            r@ == self.spec_id(),
    ;
}

/// The lifecycle of a container, as far as the page presents it.
#[derive(Clone, Copy, Debug, PartialEq, Eq, Structural)]
pub enum Lifecycle {
    Running,
    Stopped,
    Other,
}

/// A container as listed by the daemon, with its display fields already rendered
/// to text.
#[derive(Debug)]
pub struct ContainerRecord {
    pub id: String,
    pub image: String,
    pub command: String,
    /// Creation time in seconds since the Unix epoch.
    pub created: i64,
    pub status: String,
    pub ports: String,
    pub names: String,
    pub lifecycle: Lifecycle,
}

/// An image as listed by the daemon.
#[derive(Debug)]
pub struct ImageRecord {
    pub id: String,
    pub name: String,
    pub tag: String,
    pub created: String,
    pub size: String,
}

impl Resource for ContainerRecord {
    open spec fn spec_id(&self) -> Seq<char> {
        self.id@
    }

    fn id(&self) -> (r: String) {
        self.id.clone()
    }
}

impl Resource for ImageRecord {
    open spec fn spec_id(&self) -> Seq<char> {
        self.id@
    }

    fn id(&self) -> (r: String) {
        self.id.clone()
    }
}

} // verus!
