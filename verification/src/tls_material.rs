//! The TLS material on disk: four PEM files in one directory, made once and
//! then left alone.
//!
//! The host probes the directory, makes it, generates the certificates and
//! writes the files; `TlsSetup::advance` decides what it does next.

use vstd::prelude::*;

verus! {

/// File name of the server's certificate.
pub const TLS_CERT_FILE: &'static str = "cert.pem";

/// File name of the server's private key.
pub const TLS_KEY_FILE: &'static str = "key.pem";

/// File name of the certificate of the local authority.
pub const TLS_CA_CERT_FILE: &'static str = "ca_cert.pem";

/// File name of the private key of the local authority.
pub const TLS_CA_KEY_FILE: &'static str = "ca_key.pem";

/// One of the four files.
#[derive(Debug, Clone, Copy, PartialEq, Eq, Structural)]
pub enum TlsFile {
    Cert,
    Key,
    CaCert,
    CaKey,
}

impl TlsFile {
    /// The name of the file inside the directory.
    pub open spec fn name(self) -> Seq<char> {
        match self {
            TlsFile::Cert => TLS_CERT_FILE@,
            TlsFile::Key => TLS_KEY_FILE@,
            TlsFile::CaCert => TLS_CA_CERT_FILE@,
            TlsFile::CaKey => TLS_CA_KEY_FILE@,
        }
    }

    /// The file that is written after this one, if any.
    pub open spec fn following(self) -> Option<TlsFile> {
        match self {
            TlsFile::Cert => Some(TlsFile::Key),
            TlsFile::Key => Some(TlsFile::CaCert),
            TlsFile::CaCert => Some(TlsFile::CaKey),
            TlsFile::CaKey => None,
        }
    }

    /// The name of the file inside the directory.
    pub fn file_name(self) -> (name: &'static str)
        ensures
            name@ == self.name(),
    {
        match self {
            TlsFile::Cert => TLS_CERT_FILE,
            TlsFile::Key => TLS_KEY_FILE,
            TlsFile::CaCert => TLS_CA_CERT_FILE,
            TlsFile::CaKey => TLS_CA_KEY_FILE,
        }
    }
}

/// What a probe of the directory found.
#[derive(Debug, Clone, Copy, PartialEq, Eq, Structural)]
pub struct TlsPresence {
    /// The directory exists.
    pub dir: bool,
    pub cert: bool,
    pub key: bool,
    pub ca_cert: bool,
    pub ca_key: bool,
}

impl TlsPresence {
    /// All four files are there.
    pub open spec fn complete(self) -> bool {
        self.cert && self.key && self.ca_cert && self.ca_key
    }
}

/// Why the setup gave up.
#[derive(Debug, Clone, Copy, PartialEq, Eq, Structural)]
pub enum TlsSetupError {
    /// The directory is not there and could not be made.
    DirectoryMissing,
    /// No certificates could be generated.
    GenerationFailed,
    /// This file could not be written.
    WriteFailed(TlsFile),
    /// The host reported something that the setup was not waiting for.
    UnexpectedEvent,
}

impl TlsSetupError {
    /// What the error says.
    pub open spec fn text(self) -> Seq<char> {
        match self {
            TlsSetupError::DirectoryMissing => "the TLS directory could not be made"@,
            TlsSetupError::GenerationFailed => "no certificates could be generated"@,
            TlsSetupError::WriteFailed(_) => "a TLS file could not be written"@,
            TlsSetupError::UnexpectedEvent => "the TLS setup was told what it did not wait for"@,
        }
    }

    /// What the error says.
    pub fn message(&self) -> (message: String)
        ensures
            message@ == self.text(),
    {
        match self {
            TlsSetupError::DirectoryMissing => "the TLS directory could not be made".to_owned(),
            TlsSetupError::GenerationFailed => "no certificates could be generated".to_owned(),
            TlsSetupError::WriteFailed(_) => "a TLS file could not be written".to_owned(),
            TlsSetupError::UnexpectedEvent => "the TLS setup was told what it did not wait for".to_owned(),
        }
    }
}

/// Where the setup stands.
#[derive(Debug, Clone, Copy, PartialEq, Eq, Structural)]
pub enum TlsSetup {
    /// Waiting for the probe of the directory.
    Probing,
    /// Waiting for the directory to be made; `complete` is what the probe
    /// said of the files.
    MakingDir { complete: bool },
    /// Waiting for fresh certificates.
    Generating,
    /// Waiting for this file to be written.
    Writing(TlsFile),
    /// All four files are in place.
    Done,
    /// The setup gave up.
    Failed(TlsSetupError),
}

/// What the host reports.
#[derive(Debug, Clone, Copy, PartialEq, Eq, Structural)]
pub enum TlsEvent {
    /// The directory was probed.
    Probed(TlsPresence),
    /// The directory was to be made; `exists` says whether it is there now,
    /// whoever made it.
    DirMade { exists: bool },
    /// Certificates were to be generated.
    Generated { ok: bool },
    /// The file last asked for was to be written.
    Written { ok: bool },
}

/// What the host is to do next.
#[derive(Debug, Clone, Copy, PartialEq, Eq, Structural)]
pub enum TlsAction {
    /// Make the directory.
    MakeDir,
    /// Generate a self-signed authority and a server certificate signed by
    /// it.
    Generate,
    /// Write this file from the generated material.
    Write(TlsFile),
    /// Nothing is left to do.
    Finish,
    /// Stop: the server cannot run.
    Abort(TlsSetupError),
}

impl TlsSetup {
    /// Once the directory is there: complete material is left alone, anything
    /// less is generated anew.
    pub open spec fn with_dir(complete: bool) -> (TlsSetup, TlsAction) {
        if complete {
            (TlsSetup::Done, TlsAction::Finish)
        } else {
            (TlsSetup::Generating, TlsAction::Generate)
        }
    }

    /// The setup gives up.
    pub open spec fn fail(error: TlsSetupError) -> (TlsSetup, TlsAction) {
        (TlsSetup::Failed(error), TlsAction::Abort(error))
    }

    /// The state after `event`, and what the host is to do then.
    pub open spec fn next(self, event: TlsEvent) -> (TlsSetup, TlsAction) {
        match (self, event) {
            (TlsSetup::Probing, TlsEvent::Probed(found)) => if found.dir {
                TlsSetup::with_dir(found.complete())
            } else {
                (TlsSetup::MakingDir { complete: found.complete() }, TlsAction::MakeDir)
            },
            (TlsSetup::MakingDir { complete }, TlsEvent::DirMade { exists }) => if exists {
                TlsSetup::with_dir(complete)
            } else {
                TlsSetup::fail(TlsSetupError::DirectoryMissing)
            },
            (TlsSetup::Generating, TlsEvent::Generated { ok }) => if ok {
                (TlsSetup::Writing(TlsFile::Cert), TlsAction::Write(TlsFile::Cert))
            } else {
                TlsSetup::fail(TlsSetupError::GenerationFailed)
            },
            (TlsSetup::Writing(file), TlsEvent::Written { ok }) => if !ok {
                TlsSetup::fail(TlsSetupError::WriteFailed(file))
            } else {
                match file.following() {
                    Some(then) => (TlsSetup::Writing(then), TlsAction::Write(then)),
                    None => (TlsSetup::Done, TlsAction::Finish),
                }
            },
            (TlsSetup::Done, _) => (TlsSetup::Done, TlsAction::Finish),
            (TlsSetup::Failed(error), _) => TlsSetup::fail(error),
            _ => TlsSetup::fail(TlsSetupError::UnexpectedEvent),
        }
    }

    /// The state in which every setup starts.
    pub fn start() -> (state: TlsSetup)
        ensures
            state == TlsSetup::Probing,
    {
        TlsSetup::Probing
    }

    /// Takes what the host reports and decides what it does next.
    pub fn advance(self, event: TlsEvent) -> (r: (TlsSetup, TlsAction))
        ensures
            r == self.next(event),
    {
        match self {
            TlsSetup::Probing => match event {
                TlsEvent::Probed(found) => {
                    let complete = found.cert && found.key && found.ca_cert && found.ca_key;
                    if found.dir {
                        Self::settled(complete)
                    } else {
                        (TlsSetup::MakingDir { complete }, TlsAction::MakeDir)
                    }
                },
                _ => Self::given_up(TlsSetupError::UnexpectedEvent),
            },
            TlsSetup::MakingDir { complete } => match event {
                TlsEvent::DirMade { exists } => {
                    if exists {
                        Self::settled(complete)
                    } else {
                        Self::given_up(TlsSetupError::DirectoryMissing)
                    }
                },
                _ => Self::given_up(TlsSetupError::UnexpectedEvent),
            },
            TlsSetup::Generating => match event {
                TlsEvent::Generated { ok } => {
                    if ok {
                        (TlsSetup::Writing(TlsFile::Cert), TlsAction::Write(TlsFile::Cert))
                    } else {
                        Self::given_up(TlsSetupError::GenerationFailed)
                    }
                },
                _ => Self::given_up(TlsSetupError::UnexpectedEvent),
            },
            TlsSetup::Writing(file) => match event {
                TlsEvent::Written { ok } => {
                    if !ok {
                        return Self::given_up(TlsSetupError::WriteFailed(file));
                    }
                    match file {
                        TlsFile::Cert => (
                            TlsSetup::Writing(TlsFile::Key),
                            TlsAction::Write(TlsFile::Key),
                        ),
                        TlsFile::Key => (
                            TlsSetup::Writing(TlsFile::CaCert),
                            TlsAction::Write(TlsFile::CaCert),
                        ),
                        TlsFile::CaCert => (
                            TlsSetup::Writing(TlsFile::CaKey),
                            TlsAction::Write(TlsFile::CaKey),
                        ),
                        TlsFile::CaKey => (TlsSetup::Done, TlsAction::Finish),
                    }
                },
                _ => Self::given_up(TlsSetupError::UnexpectedEvent),
            },
            TlsSetup::Done => (TlsSetup::Done, TlsAction::Finish),
            TlsSetup::Failed(error) => Self::given_up(error),
        }
    }

    fn settled(complete: bool) -> (r: (TlsSetup, TlsAction))
        ensures
            r == TlsSetup::with_dir(complete),
    {
        if complete {
            (TlsSetup::Done, TlsAction::Finish)
        } else {
            (TlsSetup::Generating, TlsAction::Generate)
        }
    }

    fn given_up(error: TlsSetupError) -> (r: (TlsSetup, TlsAction))
        ensures
            r == TlsSetup::fail(error),
    {
        (TlsSetup::Failed(error), TlsAction::Abort(error))
    }
}

/// Freshly generated material: the server's certificate and key, and those
/// of the authority that signed the certificate, each as PEM text.
#[derive(Debug, Clone, PartialEq, Eq)]
pub struct TlsMaterial {
    pub cert_pem: String,
    pub key_pem: String,
    pub ca_cert_pem: String,
    pub ca_key_pem: String,
}

/// Generated material as plain values.
pub struct MaterialView {
    pub cert_pem: Seq<char>,
    pub key_pem: Seq<char>,
    pub ca_cert_pem: Seq<char>,
    pub ca_key_pem: Seq<char>,
}

impl View for TlsMaterial {
    type V = MaterialView;

    open spec fn view(&self) -> MaterialView {
        MaterialView {
            cert_pem: self.cert_pem@,
            key_pem: self.key_pem@,
            ca_cert_pem: self.ca_cert_pem@,
            ca_key_pem: self.ca_key_pem@,
        }
    }
}

impl MaterialView {
    /// The text that goes into `file`.
    pub open spec fn pem_of(self, file: TlsFile) -> Seq<char> {
        match file {
            TlsFile::Cert => self.cert_pem,
            TlsFile::Key => self.key_pem,
            TlsFile::CaCert => self.ca_cert_pem,
            TlsFile::CaKey => self.ca_key_pem,
        }
    }
}

impl TlsMaterial {
    /// The material from the two pairs that a generator hands out: the
    /// server's certificate and key, then the authority's.
    pub fn from_pairs(server: (String, String), authority: (String, String)) -> (material:
        TlsMaterial)
        ensures
            material@ == (MaterialView {
                cert_pem: server.0@,
                key_pem: server.1@,
                ca_cert_pem: authority.0@,
                ca_key_pem: authority.1@,
            }),
    {
        TlsMaterial {
            cert_pem: server.0,
            key_pem: server.1,
            ca_cert_pem: authority.0,
            ca_key_pem: authority.1,
        }
    }

    /// The text that goes into `file`.
    pub fn pem_of(&self, file: TlsFile) -> (pem: &String)
        ensures
            pem@ == self@.pem_of(file),
    {
        match file {
            TlsFile::Cert => &self.cert_pem,
            TlsFile::Key => &self.key_pem,
            TlsFile::CaCert => &self.ca_cert_pem,
            TlsFile::CaKey => &self.ca_key_pem,
        }
    }
}

/// The directory as the setup sees it: whether it exists, and what each of
/// the four files holds, if it is there.
pub struct TlsDirectory {
    pub exists: bool,
    pub cert: Option<Seq<char>>,
    pub key: Option<Seq<char>>,
    pub ca_cert: Option<Seq<char>>,
    pub ca_key: Option<Seq<char>>,
}

impl TlsDirectory {
    /// What a probe of the directory finds.
    pub open spec fn presence(self) -> TlsPresence {
        TlsPresence {
            dir: self.exists,
            cert: self.cert is Some,
            key: self.key is Some,
            ca_cert: self.ca_cert is Some,
            ca_key: self.ca_key is Some,
        }
    }

    /// The directory after `pem` was written to `file`.
    pub open spec fn with_file(self, file: TlsFile, pem: Seq<char>) -> TlsDirectory {
        match file {
            TlsFile::Cert => TlsDirectory { cert: Some(pem), ..self },
            TlsFile::Key => TlsDirectory { key: Some(pem), ..self },
            TlsFile::CaCert => TlsDirectory { ca_cert: Some(pem), ..self },
            TlsFile::CaKey => TlsDirectory { ca_key: Some(pem), ..self },
        }
    }

    /// The directory that holds exactly `material`.
    pub open spec fn holding(material: MaterialView) -> TlsDirectory {
        TlsDirectory {
            exists: true,
            cert: Some(material.cert_pem),
            key: Some(material.key_pem),
            ca_cert: Some(material.ca_cert_pem),
            ca_key: Some(material.ca_key_pem),
        }
    }

    /// What a host that never fails makes of the directory when it carries
    /// out `action` with `material` as what it generates, and what it
    /// reports then, if the setup goes on.
    pub open spec fn perform(self, action: TlsAction, material: MaterialView) -> (
        TlsDirectory,
        Option<TlsEvent>,
    ) {
        match action {
            TlsAction::MakeDir => (
                TlsDirectory { exists: true, ..self },
                Some(TlsEvent::DirMade { exists: true }),
            ),
            TlsAction::Generate => (self, Some(TlsEvent::Generated { ok: true })),
            TlsAction::Write(file) => (
                self.with_file(file, material.pem_of(file)),
                Some(TlsEvent::Written { ok: true }),
            ),
            TlsAction::Finish => (self, None),
            TlsAction::Abort(_) => (self, None),
        }
    }

    /// The directory once such a host has followed the setup from `state`
    /// and `event` for at most `steps` actions.
    pub open spec fn followed(
        self,
        state: TlsSetup,
        event: TlsEvent,
        material: MaterialView,
        steps: nat,
    ) -> TlsDirectory
        decreases steps,
    {
        if steps == 0 {
            self
        } else {
            let (then, action) = state.next(event);
            let (directory, report) = self.perform(action, material);
            match report {
                Some(report) => directory.followed(then, report, material, (steps - 1) as nat),
                None => directory,
            }
        }
    }

    /// The directory after a whole setup on it by a host that never fails,
    /// where `material` is what the host would generate. No setup takes more
    /// than seven actions.
    pub open spec fn ensured(self, material: MaterialView) -> TlsDirectory {
        self.followed(TlsSetup::Probing, TlsEvent::Probed(self.presence()), material, 7)
    }
}

/// Once certificates were generated the host writes all four files, and
/// nothing else changes.
proof fn lemma_written(directory: TlsDirectory, material: MaterialView, steps: nat)
    requires
        steps >= 5,
    ensures
        directory.followed(
            TlsSetup::Generating,
            TlsEvent::Generated { ok: true },
            material,
            steps,
        ) == (TlsDirectory { exists: directory.exists, ..TlsDirectory::holding(material) }),
{
    reveal_with_fuel(TlsDirectory::followed, 6);
}

/// A setup leaves the four files alone where all of them are there, and
/// makes no more than the directory; where one is missing it leaves exactly
/// the generated material.
pub proof fn lemma_ensured(directory: TlsDirectory, material: MaterialView)
    ensures
        directory.presence().complete() ==> directory.ensured(material) == (TlsDirectory {
            exists: true,
            ..directory
        }),
        !directory.presence().complete() ==> directory.ensured(material) == TlsDirectory::holding(
            material,
        ),
{
    reveal_with_fuel(TlsDirectory::followed, 3);
    let made = TlsDirectory { exists: true, ..directory };
    lemma_written(directory, material, 6);
    lemma_written(made, material, 5);
}

/// A second setup in a row changes nothing: whatever the host would
/// generate then, the files stay as the first setup left them.
pub proof fn lemma_ensured_twice(directory: TlsDirectory, first: MaterialView, second: MaterialView)
    ensures
        directory.ensured(first).ensured(second) == directory.ensured(first),
{
    lemma_ensured(directory, first);
    lemma_ensured(directory.ensured(first), second);
}

/// A setup on complete material asks the host for nothing: it finishes at
/// once, or as soon as the directory is made.
pub proof fn lemma_complete_is_left_alone(found: TlsPresence)
    requires
        found.complete(),
    ensures
        found.dir ==> TlsSetup::Probing.next(TlsEvent::Probed(found)) == (
            TlsSetup::Done,
            TlsAction::Finish,
        ),
        !found.dir ==> TlsSetup::Probing.next(TlsEvent::Probed(found)).1 == TlsAction::MakeDir
            && TlsSetup::Probing.next(TlsEvent::Probed(found)).0.next(
            TlsEvent::DirMade { exists: true },
        ) == (TlsSetup::Done, TlsAction::Finish),
{
}

} // verus!
