use vstd::prelude::*;

use crate::Visibility;

verus! {

/// One remote repository, as decoded from a page of the source API.
#[derive(Clone, Debug)]
pub struct RepositoryDescriptor {
    pub name: String,
    pub owner: String,
    pub visibility: Visibility,
    pub is_fork: bool,
}

/// Mathematical image of a `RepositoryDescriptor`.
pub ghost struct DescriptorModel {
    pub name: Seq<char>,
    pub owner: Seq<char>,
    pub visibility: Visibility,
    pub is_fork: bool,
}

impl View for RepositoryDescriptor {
    type V = DescriptorModel;

    open spec fn view(&self) -> DescriptorModel {
        DescriptorModel {
            name: self.name@,
            owner: self.owner@,
            visibility: self.visibility,
            is_fork: self.is_fork,
        }
    }
}

/// A descriptor is well formed when its required fields are non-empty.
pub open spec fn descriptor_wf(d: DescriptorModel) -> bool {
    d.name.len() > 0 && d.owner.len() > 0
}

/// Which repositories a run migrates. In any valid configuration at least one
/// of `include_public` / `include_private` is set; the collaborator that
/// builds this from flags guarantees it.
#[derive(Clone, Copy, Debug, PartialEq, Eq, Structural)]
pub struct RunFilter {
    pub include_public: bool,
    pub include_private: bool,
    pub any_owner: bool,
    pub include_forks: bool,
}

impl RunFilter {
    pub open spec fn wf(self) -> bool {
        self.include_public || self.include_private
    }
}

/// One raw record of a source API page: the four fields the run reads, each
/// absent when the record did not carry it (or carried it with another type).
#[derive(Clone, Debug)]
pub struct RawRecord {
    pub name: Option<String>,
    pub owner_login: Option<String>,
    pub visibility: Option<String>,
    pub fork: Option<bool>,
}

/// Mathematical image of a `RawRecord`.
pub ghost struct RawRecordModel {
    pub name: Option<Seq<char>>,
    pub owner_login: Option<Seq<char>>,
    pub visibility: Option<Seq<char>>,
    pub fork: Option<bool>,
}

impl View for RawRecord {
    type V = RawRecordModel;

    open spec fn view(&self) -> RawRecordModel {
        RawRecordModel {
            name: match self.name {
                Some(ref s) => Some(s@),
                None => None,
            },
            owner_login: match self.owner_login {
                Some(ref s) => Some(s@),
                None => None,
            },
            visibility: match self.visibility {
                Some(ref s) => Some(s@),
                None => None,
            },
            fork: self.fork,
        }
    }
}

/// One migration request for the destination API; built once per accepted
/// repository and consumed exactly once by the dispatcher.
#[derive(Clone, Debug)]
pub struct MigrationRequest {
    pub clone_url: String,
    pub repo_name: String,
    pub dest_owner: String,
    pub mirror: bool,
    pub private: bool,
    pub auth_user: String,
    pub auth_secret: String,
}

/// Mathematical image of a `MigrationRequest`.
pub ghost struct RequestModel {
    pub clone_url: Seq<char>,
    pub repo_name: Seq<char>,
    pub dest_owner: Seq<char>,
    pub mirror: bool,
    pub private: bool,
    pub auth_user: Seq<char>,
    pub auth_secret: Seq<char>,
}

impl View for MigrationRequest {
    type V = RequestModel;

    open spec fn view(&self) -> RequestModel {
        RequestModel {
            clone_url: self.clone_url@,
            repo_name: self.repo_name@,
            dest_owner: self.dest_owner@,
            mirror: self.mirror,
            private: self.private,
            auth_user: self.auth_user@,
            auth_secret: self.auth_secret@,
        }
    }
}

/// What the destination API answered to one migration request, reduced to
/// what the run decides on: a status code with its text, or a transport
/// failure with its message.
#[derive(Clone, Debug)]
pub enum DispatchResponse {
    Status(u16, String),
    Transport(String),
}

/// Mathematical image of a `DispatchResponse`.
pub ghost enum ResponseModel {
    Status(u16, Seq<char>),
    Transport(Seq<char>),
}

impl View for DispatchResponse {
    type V = ResponseModel;

    open spec fn view(&self) -> ResponseModel {
        match self {
            DispatchResponse::Status(code, detail) => ResponseModel::Status(*code, detail@),
            DispatchResponse::Transport(detail) => ResponseModel::Transport(detail@),
        }
    }
}

/// The recorded fate of one migration request.
#[derive(Clone, Debug)]
pub struct MigrationOutcome {
    pub repo_name: String,
    pub success: bool,
    pub detail: String,
}

/// Mathematical image of a `MigrationOutcome`.
pub ghost struct OutcomeModel {
    pub repo_name: Seq<char>,
    pub success: bool,
    pub detail: Seq<char>,
}

impl View for MigrationOutcome {
    type V = OutcomeModel;

    open spec fn view(&self) -> OutcomeModel {
        OutcomeModel { repo_name: self.repo_name@, success: self.success, detail: self.detail@ }
    }
}

} // verus!
