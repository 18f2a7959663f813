//! The change events and the one-byte tags of the wire format.

use vstd::prelude::*;

verus! {

/// What happened to an object, as tagged in the first byte of a frame.
#[derive(Clone, Copy, Debug, PartialEq, Eq, Structural)]
pub enum OperationType {
    Added,
    Modified,
    Created,
    Renamed,
    Removed,
}

/// What kind of object a frame speaks of, as tagged in its second byte.
#[derive(Clone, Copy, Debug, PartialEq, Eq, Structural)]
pub enum ObjectType {
    File,
    Folder,
}

/// A violation of the wire format.
#[derive(Clone, Copy, Debug, PartialEq, Eq, Structural)]
pub enum ProtocolError {
    /// The operation byte is none of 3 to 7.
    UnknownOperation,
    /// The object byte is neither 1 nor 2, in a frame that is not a rename.
    UnknownObjectKind,
    /// Operation and object are each valid, but no event pairs them.
    ImpossibleCombination,
}

impl OperationType {
    /// The operation that a tag byte stands for, if any.
    pub open spec fn from_code(code: u8) -> Option<OperationType> {
        if code == 3 {
            Some(OperationType::Added)
        } else if code == 4 {
            Some(OperationType::Modified)
        } else if code == 5 {
            Some(OperationType::Created)
        } else if code == 6 {
            Some(OperationType::Renamed)
        } else if code == 7 {
            Some(OperationType::Removed)
        } else {
            None
        }
    }

    /// The tag byte of an operation.
    pub open spec fn code(self) -> u8 {
        match self {
            OperationType::Added => 3,
            OperationType::Modified => 4,
            OperationType::Created => 5,
            OperationType::Renamed => 6,
            OperationType::Removed => 7,
        }
    }
}

impl ObjectType {
    /// The object kind that a tag byte stands for, if any.
    pub open spec fn from_code(code: u8) -> Option<ObjectType> {
        if code == 1 {
            Some(ObjectType::File)
        } else if code == 2 {
            Some(ObjectType::Folder)
        } else {
            None
        }
    }

    /// The tag byte of an object kind.
    pub open spec fn code(self) -> u8 {
        match self {
            ObjectType::File => 1,
            ObjectType::Folder => 2,
        }
    }
}

impl TryFrom<u8> for OperationType {
    type Error = ProtocolError;

    fn try_from(value: u8) -> (r: Result<Self, ProtocolError>) {
        match value {
            3 => Ok(OperationType::Added),
            4 => Ok(OperationType::Modified),
            5 => Ok(OperationType::Created),
            6 => Ok(OperationType::Renamed),
            7 => Ok(OperationType::Removed),
            _ => Err(ProtocolError::UnknownOperation),
        }
    }
}

impl vstd::std_specs::convert::TryFromSpecImpl<u8> for OperationType {
    open spec fn obeys_try_from_spec() -> bool {
        true
    }

    open spec fn try_from_spec(v: u8) -> Result<Self, ProtocolError> {
        match OperationType::from_code(v) {
            Some(op) => Ok(op),
            None => Err(ProtocolError::UnknownOperation),
        }
    }
}

impl TryFrom<u8> for ObjectType {
    type Error = ProtocolError;

    fn try_from(value: u8) -> (r: Result<Self, ProtocolError>) {
        match value {
            1 => Ok(ObjectType::File),
            2 => Ok(ObjectType::Folder),
            _ => Err(ProtocolError::UnknownObjectKind),
        }
    }
}

impl vstd::std_specs::convert::TryFromSpecImpl<u8> for ObjectType {
    open spec fn obeys_try_from_spec() -> bool {
        true
    }

    open spec fn try_from_spec(v: u8) -> Result<Self, ProtocolError> {
        match ObjectType::from_code(v) {
            Some(kind) => Ok(kind),
            None => Err(ProtocolError::UnknownObjectKind),
        }
    }
}

/// Every tag byte of an operation is read back as that operation, and no
/// other byte is read as one.
pub proof fn operation_codes_are_exact(op: OperationType, code: u8)
    ensures
        OperationType::from_code(op.code()) == Some(op),
        OperationType::from_code(code) == Some(op) <==> code == op.code(),
        3 <= op.code() <= 7,
        OperationType::from_code(code) is Some <==> 3 <= code <= 7,
{
}

/// Every tag byte of an object kind is read back as that kind, and no other
/// byte is read as one.
pub proof fn object_codes_are_exact(kind: ObjectType, code: u8)
    ensures
        ObjectType::from_code(kind.code()) == Some(kind),
        ObjectType::from_code(code) == Some(kind) <==> code == kind.code(),
        ObjectType::from_code(code) is Some <==> 1 <= code <= 2,
{
}

/// One change on the watched directory.
#[derive(Debug, PartialEq, Eq)]
pub enum Event {
    FileRemoved(String),
    FolderRemoved(String),
    FolderAdded(String),
    FileAdded(String),
    FileModified(String),
    Renamed { from: String, to: String },
    FileCreated(String),
    FolderCreated(String),
}

/// An event with each path as its sequence of characters.
pub enum EventView {
    FileRemoved(Seq<char>),
    FolderRemoved(Seq<char>),
    FolderAdded(Seq<char>),
    FileAdded(Seq<char>),
    FileModified(Seq<char>),
    Renamed { from: Seq<char>, to: Seq<char> },
    FileCreated(Seq<char>),
    FolderCreated(Seq<char>),
}

impl View for Event {
    type V = EventView;

    open spec fn view(&self) -> EventView {
        match *self {
            Event::FileRemoved(p) => EventView::FileRemoved(p@),
            Event::FolderRemoved(p) => EventView::FolderRemoved(p@),
            Event::FolderAdded(p) => EventView::FolderAdded(p@),
            Event::FileAdded(p) => EventView::FileAdded(p@),
            Event::FileModified(p) => EventView::FileModified(p@),
            Event::Renamed { from, to } => EventView::Renamed { from: from@, to: to@ },
            Event::FileCreated(p) => EventView::FileCreated(p@),
            Event::FolderCreated(p) => EventView::FolderCreated(p@),
        }
    }
}

/// The event that pairs an operation with an object kind, on one path.
/// A folder is never reported as modified, and a rename takes two paths:
/// those pairs give no event.
pub open spec fn single_path_event(op: OperationType, kind: ObjectType, path: Seq<char>) -> Option<
    EventView,
> {
    match (op, kind) {
        (OperationType::Removed, ObjectType::File) => Some(EventView::FileRemoved(path)),
        (OperationType::Removed, ObjectType::Folder) => Some(EventView::FolderRemoved(path)),
        (OperationType::Added, ObjectType::File) => Some(EventView::FileAdded(path)),
        (OperationType::Added, ObjectType::Folder) => Some(EventView::FolderAdded(path)),
        (OperationType::Modified, ObjectType::File) => Some(EventView::FileModified(path)),
        (OperationType::Created, ObjectType::File) => Some(EventView::FileCreated(path)),
        (OperationType::Created, ObjectType::Folder) => Some(EventView::FolderCreated(path)),
        (OperationType::Modified, ObjectType::Folder) => None,
        (OperationType::Renamed, _) => None,
    }
}

impl EventView {
    /// The line of text that describes the event.
    pub open spec fn text(self) -> Seq<char> {
        match self {
            EventView::FileRemoved(p) => "file removed: "@ + p,
            EventView::FolderRemoved(p) => "folder removed: "@ + p,
            EventView::FolderAdded(p) => "folder added: "@ + p,
            EventView::FileAdded(p) => "file added: "@ + p,
            EventView::FileModified(p) => "file modified: "@ + p,
            EventView::Renamed { from, to } => "renamed: "@ + from + " -> "@ + to,
            EventView::FileCreated(p) => "file created: "@ + p,
            EventView::FolderCreated(p) => "folder created: "@ + p,
        }
    }
}

/// `label` followed by `path`.
fn labelled(label: &str, path: &String) -> (s: String)
    ensures
        s@ == label@ + path@,
{
    let mut s = String::from_str(label);
    s.append(path.as_str());
    s
}

impl Event {
    /// Pairs an operation and an object kind on one path.
    pub fn assemble(op: OperationType, kind: ObjectType, path: String) -> (r: Result<
        Event,
        ProtocolError,
    >)
        ensures
            match single_path_event(op, kind, path@) {
                Some(ev) => r is Ok && r->Ok_0@ == ev,
                None => r == Err::<Event, ProtocolError>(ProtocolError::ImpossibleCombination),
            },
    {
        match (op, kind) {
            (OperationType::Removed, ObjectType::File) => Ok(Event::FileRemoved(path)),
            (OperationType::Removed, ObjectType::Folder) => Ok(Event::FolderRemoved(path)),
            (OperationType::Added, ObjectType::File) => Ok(Event::FileAdded(path)),
            (OperationType::Added, ObjectType::Folder) => Ok(Event::FolderAdded(path)),
            (OperationType::Modified, ObjectType::File) => Ok(Event::FileModified(path)),
            (OperationType::Created, ObjectType::File) => Ok(Event::FileCreated(path)),
            (OperationType::Created, ObjectType::Folder) => Ok(Event::FolderCreated(path)),
            _ => Err(ProtocolError::ImpossibleCombination),
        }
    }

    /// The line of text that describes the event.
    pub fn to_string(&self) -> (s: String)
        ensures
            s@ == self@.text(),
    {
        match self {
            Event::FileRemoved(path) => labelled("file removed: ", path),
            Event::FolderRemoved(path) => labelled("folder removed: ", path),
            Event::FolderAdded(path) => labelled("folder added: ", path),
            Event::FileAdded(path) => labelled("file added: ", path),
            Event::FileModified(path) => labelled("file modified: ", path),
            Event::Renamed { from, to } => {
                let mut s = labelled("renamed: ", from);
                s.append(" -> ");
                s.append(to.as_str());
                s
            },
            Event::FileCreated(path) => labelled("file created: ", path),
            Event::FolderCreated(path) => labelled("folder created: ", path),
        }
    }
}

} // verus!
