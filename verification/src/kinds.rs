//! The two enumerations a notification carries as numeric codes: the kind of
//! resource that changed and the kind of change.

use vstd::prelude::*;

verus! {

/// The kind of resource a subscription or a notification refers to.
#[derive(Clone, Copy, Debug, PartialEq, Eq, Structural)]
pub enum EventResource {
    Unspecified,
    Project,
    Dataset,
    DatasetVersion,
    ObjectGroup,
    All,
}

impl EventResource {
    /// The numeric code that stands for this kind on the wire.
    pub open spec fn spec_code(self) -> int {
        match self {
            EventResource::Unspecified => 0,
            EventResource::Project => 1,
            EventResource::Dataset => 2,
            EventResource::DatasetVersion => 3,
            EventResource::ObjectGroup => 4,
            EventResource::All => 5,
        }
    }

    /// The name under which this kind is printed.
    pub open spec fn spec_name(self) -> Seq<char> {
        match self {
            EventResource::Unspecified => "Unspecified"@,
            EventResource::Project => "Project"@,
            EventResource::Dataset => "Dataset"@,
            EventResource::DatasetVersion => "DatasetVersion"@,
            EventResource::ObjectGroup => "ObjectGroup"@,
            EventResource::All => "All"@,
        }
    }

    /// The kind with the code `code`, if there is one.
    pub open spec fn spec_from_code(code: int) -> Option<EventResource> {
        if code == 0 {
            Some(EventResource::Unspecified)
        } else if code == 1 {
            Some(EventResource::Project)
        } else if code == 2 {
            Some(EventResource::Dataset)
        } else if code == 3 {
            Some(EventResource::DatasetVersion)
        } else if code == 4 {
            Some(EventResource::ObjectGroup)
        } else if code == 5 {
            Some(EventResource::All)
        } else {
            None
        }
    }

    pub fn code(self) -> (c: i32)
        ensures
            c == self.spec_code(),
    {
        match self {
            EventResource::Unspecified => 0,
            EventResource::Project => 1,
            EventResource::Dataset => 2,
            EventResource::DatasetVersion => 3,
            EventResource::ObjectGroup => 4,
            EventResource::All => 5,
        }
    }

    /// The kind with the code `code`, if there is one.
    pub fn from_code(code: i32) -> (r: Option<EventResource>)
        ensures
            r == Self::spec_from_code(code as int),
            r matches Some(k) ==> k.spec_code() == code,
    {
        if code == 0 {
            Some(EventResource::Unspecified)
        } else if code == 5 {
            Some(EventResource::All)
        } else if code == 1 {
            Some(EventResource::Project)
        } else if code == 2 {
            Some(EventResource::Dataset)
        } else if code == 3 {
            Some(EventResource::DatasetVersion)
        } else if code == 4 {
            Some(EventResource::ObjectGroup)
        } else {
            None
        }
    }

    pub fn name(self) -> (s: &'static str)
        ensures
            s@ == self.spec_name(),
    {
        match self {
            EventResource::Unspecified => "Unspecified",
            EventResource::Project => "Project",
            EventResource::Dataset => "Dataset",
            EventResource::DatasetVersion => "DatasetVersion",
            EventResource::ObjectGroup => "ObjectGroup",
            EventResource::All => "All",
        }
    }
}

/// The kind of change a notification reports.
#[derive(Clone, Copy, Debug, PartialEq, Eq, Structural)]
pub enum UpdateType {
    Unspecified,
    Created,
    Available,
    Updated,
    MetadataUpdated,
    Deleted,
}

impl UpdateType {
    /// The numeric code that stands for this kind of change on the wire.
    pub open spec fn spec_code(self) -> int {
        match self {
            UpdateType::Unspecified => 0,
            UpdateType::Created => 1,
            UpdateType::Available => 2,
            UpdateType::Updated => 3,
            UpdateType::MetadataUpdated => 4,
            UpdateType::Deleted => 5,
        }
    }

    /// The name under which this kind of change is printed.
    pub open spec fn spec_name(self) -> Seq<char> {
        match self {
            UpdateType::Unspecified => "Unspecified"@,
            UpdateType::Created => "Created"@,
            UpdateType::Available => "Available"@,
            UpdateType::Updated => "Updated"@,
            UpdateType::MetadataUpdated => "MetadataUpdated"@,
            UpdateType::Deleted => "Deleted"@,
        }
    }

    /// The kind of change with the code `code`, if there is one.
    pub open spec fn spec_from_code(code: int) -> Option<UpdateType> {
        if code == 0 {
            Some(UpdateType::Unspecified)
        } else if code == 1 {
            Some(UpdateType::Created)
        } else if code == 2 {
            Some(UpdateType::Available)
        } else if code == 3 {
            Some(UpdateType::Updated)
        } else if code == 4 {
            Some(UpdateType::MetadataUpdated)
        } else if code == 5 {
            Some(UpdateType::Deleted)
        } else {
            None
        }
    }

    pub fn code(self) -> (c: i32)
        ensures
            c == self.spec_code(),
    {
        match self {
            UpdateType::Unspecified => 0,
            UpdateType::Created => 1,
            UpdateType::Available => 2,
            UpdateType::Updated => 3,
            UpdateType::MetadataUpdated => 4,
            UpdateType::Deleted => 5,
        }
    }

    /// The kind of change with the code `code`, if there is one.
    pub fn from_code(code: i32) -> (r: Option<UpdateType>)
        ensures
            r == Self::spec_from_code(code as int),
            r matches Some(k) ==> k.spec_code() == code,
    {
        if code == 0 {
            Some(UpdateType::Unspecified)
        } else if code == 3 {
            Some(UpdateType::Updated)
        } else if code == 4 {
            Some(UpdateType::MetadataUpdated)
        } else if code == 1 {
            Some(UpdateType::Created)
        } else if code == 5 {
            Some(UpdateType::Deleted)
        } else if code == 2 {
            Some(UpdateType::Available)
        } else {
            None
        }
    }

    pub fn name(self) -> (s: &'static str)
        ensures
            s@ == self.spec_name(),
    {
        match self {
            UpdateType::Unspecified => "Unspecified",
            UpdateType::Created => "Created",
            UpdateType::Available => "Available",
            UpdateType::Updated => "Updated",
            UpdateType::MetadataUpdated => "MetadataUpdated",
            UpdateType::Deleted => "Deleted",
        }
    }
}

} // verus!
