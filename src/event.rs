use vstd::prelude::*;

verus! {

/// What a heartbeat is about.
#[derive(Debug, Clone, Copy, PartialEq, Eq, Structural)]
pub enum WakaTimeEntityType {
    File,
    Domain,
    App,
}

/// The kind of activity a heartbeat reports.
#[derive(Debug, Clone, Copy, PartialEq, Eq, Structural)]
pub enum WakaTimeCategory {
    Coding,
    Building,
    Indexing,
    Debugging,
    Running,
    Testing,
    Manual,
    Writing,
    Designing,
    Researching,
}

impl WakaTimeEntityType {
    /// The wire name of the entity type.
    pub open spec fn spec_name(self) -> Seq<char> {
        match self {
            WakaTimeEntityType::File => "file"@,
            WakaTimeEntityType::Domain => "domain"@,
            WakaTimeEntityType::App => "app"@,
        }
    }

    /// The wire name of the entity type, as sent to the service.
    pub fn name(&self) -> (r: String)
        ensures
            r@ == self.spec_name(),
    {
        match self {
            WakaTimeEntityType::File => String::from_str("file"),
            WakaTimeEntityType::Domain => String::from_str("domain"),
            WakaTimeEntityType::App => String::from_str("app"),
        }
    }
}

impl WakaTimeCategory {
    /// The wire name of the category.
    pub open spec fn spec_name(self) -> Seq<char> {
        match self {
            WakaTimeCategory::Coding => "coding"@,
            WakaTimeCategory::Building => "building"@,
            WakaTimeCategory::Indexing => "indexing"@,
            WakaTimeCategory::Debugging => "debugging"@,
            WakaTimeCategory::Running => "running"@,
            WakaTimeCategory::Testing => "testing"@,
            WakaTimeCategory::Manual => "manual"@,
            WakaTimeCategory::Writing => "writing"@,
            WakaTimeCategory::Designing => "designing"@,
            WakaTimeCategory::Researching => "researching"@,
        }
    }

    /// The wire name of the category, as sent to the service.
    pub fn name(&self) -> (r: String)
        ensures
            r@ == self.spec_name(),
    {
        match self {
            WakaTimeCategory::Coding => String::from_str("coding"),
            WakaTimeCategory::Building => String::from_str("building"),
            WakaTimeCategory::Indexing => String::from_str("indexing"),
            WakaTimeCategory::Debugging => String::from_str("debugging"),
            WakaTimeCategory::Running => String::from_str("running"),
            WakaTimeCategory::Testing => String::from_str("testing"),
            WakaTimeCategory::Manual => String::from_str("manual"),
            WakaTimeCategory::Writing => String::from_str("writing"),
            WakaTimeCategory::Designing => String::from_str("designing"),
            WakaTimeCategory::Researching => String::from_str("researching"),
        }
    }
}

/// A wall-clock instant: whole seconds since the Unix epoch and the
/// nanoseconds past that second.
#[derive(Debug, Clone, Copy, PartialEq, Eq, Structural)]
pub struct Timestamp {
    pub secs: u64,
    pub nanos: u32,
}

impl Timestamp {
    /// A timestamp is well formed when its fraction is below one second.
    pub open spec fn wf(self) -> bool {
        self.nanos < 1_000_000_000
    }
}

/// One observed activity instant, ready to be delivered.
#[derive(Debug, Clone)]
pub enum WakaTimeEvent {
    /// A heartbeat for time tracking.
    Heartbeat {
        entity: String,
        type_: WakaTimeEntityType,
        category: WakaTimeCategory,
        time: Timestamp,
        project: Option<String>,
        language: Option<String>,
        is_write: bool,
        lines: Option<u32>,
        lineno: Option<u32>,
        cursorpos: Option<u32>,
    },
}

} // verus!
