//! The command that writes manifests out for inspection. It asks nothing of
//! the cluster.

use crate::crd::{crd_file, crd_generate};
use crate::manifest::{GeneratedFile, GeneratedFileView};
use crate::persistent::{claim_file, persistent_generate, volume_file};
use crate::primary::{primary_file, primary_generate};
use crate::services::{service_file, service_generate};
use vstd::prelude::*;

verus! {

/// What can be generated.
#[derive(Clone, Copy, Debug, PartialEq, Eq, Structural)]
pub enum GenerateType {
    Crd,
    Service,
    Persistent,
    Primary,
}

impl GenerateType {
    /// The type that `name` stands for on the command line.
    pub open spec fn named(name: Seq<char>) -> Option<GenerateType> {
        if name == "crd"@ {
            Some(GenerateType::Crd)
        } else if name == "service"@ {
            Some(GenerateType::Service)
        } else if name == "persistent"@ {
            Some(GenerateType::Persistent)
        } else if name == "primary"@ {
            Some(GenerateType::Primary)
        } else {
            None
        }
    }

    /// The files that are written for this type.
    pub open spec fn files(self) -> Seq<GeneratedFileView> {
        match self {
            GenerateType::Crd => seq![crd_file()],
            GenerateType::Service => seq![service_file()],
            GenerateType::Persistent => seq![volume_file(), claim_file()],
            GenerateType::Primary => seq![primary_file()],
        }
    }

    /// Reads a type from its name on the command line.
    pub fn parse(name: &str) -> (parsed: Option<GenerateType>)
        ensures
            parsed == GenerateType::named(name@),
    {
        let name = name.to_owned();
        if name == "crd".to_owned() {
            Some(GenerateType::Crd)
        } else if name == "service".to_owned() {
            Some(GenerateType::Service)
        } else if name == "persistent".to_owned() {
            Some(GenerateType::Persistent)
        } else if name == "primary".to_owned() {
            Some(GenerateType::Primary)
        } else {
            None
        }
    }

    /// The files to write for this type.
    pub fn generate(self) -> (files: Vec<GeneratedFile>)
        ensures
            files.deep_view() == self.files(),
    {
        let mut files: Vec<GeneratedFile> = Vec::new();
        match self {
            GenerateType::Crd => {
                files.push(crd_generate());
            },
            GenerateType::Service => {
                files.push(service_generate());
            },
            GenerateType::Persistent => {
                let (volume, claim) = persistent_generate();
                files.push(volume);
                files.push(claim);
            },
            GenerateType::Primary => {
                files.push(primary_generate());
            },
        }
        assert(files.deep_view() =~= self.files());
        files
    }
}

/// Handles the 'generate' subcommand: the files to write for the type named
/// `name`, or none where no type has that name.
pub fn handle_generate(name: &str) -> (files: Option<Vec<GeneratedFile>>)
    ensures
        match GenerateType::named(name@) {
            Some(kind) => files is Some && files->0.deep_view() == kind.files(),
            None => files is None,
        },
{
    match GenerateType::parse(name) {
        Some(kind) => Some(kind.generate()),
        None => None,
    }
}

} // verus!
