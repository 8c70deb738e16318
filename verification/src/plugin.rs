//! Plugins of the hub: what is known of one, where its files come from, and
//! whether it is switched on.

use crate::table::{Table, TableModel};
use crate::text::{copy_strings, debug_quoted, debug_text, decimal, decimal_text_u64, join3};
use vstd::prelude::*;

verus! {

/// A requirement on version numbers of the `semver` crate.
#[verifier::external_type_specification]
#[verifier::external_body]
pub struct ExVersionReq(semver::VersionReq);

/// `semver::VersionReq::any` builds the requirement that every version
/// meets. Nothing is claimed of the value here.
pub assume_specification[ semver::VersionReq::any ]() -> (r: semver::VersionReq)
;

/// The derived `Clone` of `semver::VersionReq` copies its list of predicates.
pub assume_specification[ <semver::VersionReq as Clone>::clone ](req: &semver::VersionReq) -> (r:
    semver::VersionReq)
    ensures
        r == *req,
;

/// The version of a plugin, as semantic versioning reads it: three numbers
/// and, after them, the identifiers of a pre-release and those of a build,
/// each identifier as it is written.
#[derive(Debug)]
pub struct PluginVersion {
    pub major: u64,
    pub minor: u64,
    pub patch: u64,
    pub pre: Vec<String>,
    pub build: Vec<String>,
}

/// The mathematical content of a [`PluginVersion`].
pub struct PluginVersionView {
    pub major: u64,
    pub minor: u64,
    pub patch: u64,
    pub pre: Seq<Seq<char>>,
    pub build: Seq<Seq<char>>,
}

impl View for PluginVersion {
    type V = PluginVersionView;

    open spec fn view(&self) -> PluginVersionView {
        PluginVersionView {
            major: self.major,
            minor: self.minor,
            patch: self.patch,
            pre: self.pre.deep_view(),
            build: self.build.deep_view(),
        }
    }
}

/// The version `major.minor.patch`, with no identifier after it.
pub open spec fn plain_version(major: u64, minor: u64, patch: u64) -> PluginVersionView {
    PluginVersionView { major, minor, patch, pre: Seq::empty(), build: Seq::empty() }
}

/// Builds a version with `semver::Version::new` and reads its public fields
/// out; an identifier is read out as `Display` writes it.
///
/// Trusted: `Version::new` keeps the three numbers and leaves both lists of
/// identifiers empty.
#[verifier::external_body]
fn semver_new(major: u64, minor: u64, patch: u64) -> (r: PluginVersion)
    ensures
        r@ == plain_version(major, minor, patch),
{
    let version = semver::Version::new(major, minor, patch);
    PluginVersion {
        major: version.major,
        minor: version.minor,
        patch: version.patch,
        pre: version.pre.iter().map(|id| id.to_string()).collect(),
        build: version.build.iter().map(|id| id.to_string()).collect(),
    }
}

/// The identifiers of a list, separated by dots.
pub open spec fn dotted_text(identifiers: Seq<Seq<char>>) -> Seq<char>
    decreases identifiers.len(),
{
    if identifiers.len() == 0 {
        Seq::empty()
    } else if identifiers.len() == 1 {
        identifiers[0]
    } else {
        dotted_text(identifiers.drop_last()) + "."@ + identifiers.last()
    }
}

/// A list of identifiers as it follows the numbers of a version: nothing
/// for an empty list, and else the mark and the identifiers, separated by dots.
pub open spec fn identifiers_text(mark: Seq<char>, identifiers: Seq<Seq<char>>) -> Seq<char> {
    if identifiers.len() == 0 {
        Seq::empty()
    } else {
        mark + dotted_text(identifiers)
    }
}

/// The text of a version: the three numbers separated by dots, then the
/// pre-release identifiers after a hyphen and the build identifiers after a
/// plus sign, where there are any.
pub open spec fn version_text(version: PluginVersionView) -> Seq<char> {
    decimal(version.major as nat) + "."@ + decimal(version.minor as nat) + "."@ + decimal(
        version.patch as nat,
    ) + identifiers_text("-"@, version.pre) + identifiers_text("+"@, version.build)
}

/// Appends a list of identifiers to the text of a version.
fn append_identifiers(text: &mut String, mark: &str, identifiers: &Vec<String>)
    ensures
        final(text)@ == old(text)@ + identifiers_text(mark@, identifiers.deep_view()),
{
    let ghost all = identifiers.deep_view();
    let ghost start = text@;
    if identifiers.len() == 0 {
        assert(text@ =~= start + identifiers_text(mark@, all));
        return ;
    }
    text.append(mark);
    let mut i: usize = 0;
    assert(all.take(0) =~= Seq::<Seq<char>>::empty());
    assert(text@ =~= start + mark@ + dotted_text(all.take(0)));
    while i < identifiers.len()
        invariant
            i <= identifiers@.len(),
            all == identifiers.deep_view(),
            text@ == start + mark@ + dotted_text(all.take(i as int)),
        decreases identifiers@.len() - i,
    {
        assert(all.take(i + 1).drop_last() =~= all.take(i as int));
        assert(all.take(i + 1).last() == identifiers@[i as int]@);
        if i > 0 {
            text.append(".");
        }
        text.append(identifiers[i].as_str());
        proof {
            let listed = all.take(i + 1);
            if i == 0 {
                assert(listed[0] == identifiers@[0]@);
            }
            assert(text@ =~= start + mark@ + dotted_text(listed));
        }
        i += 1;
    }
    assert(all.take(i as int) =~= all);
    assert(text@ =~= start + identifiers_text(mark@, all));
}

impl PluginVersion {
    /// The version `major.minor.patch`, with no identifier after it.
    pub fn new(major: u64, minor: u64, patch: u64) -> (r: Self)
        ensures
            r@ == plain_version(major, minor, patch),
    {
        semver_new(major, minor, patch)
    }

    /// The text of the version.
    pub fn to_string(&self) -> (r: String)
        ensures
            r@ == version_text(self@),
    {
        let mut text = decimal_text_u64(self.major);
        text.append(".");
        text.append(decimal_text_u64(self.minor).as_str());
        text.append(".");
        text.append(decimal_text_u64(self.patch).as_str());
        append_identifiers(&mut text, "-", &self.pre);
        append_identifiers(&mut text, "+", &self.build);
        text
    }

    /// A copy of this version.
    pub fn duplicate(&self) -> (r: Self)
        ensures
            r@ == self@,
    {
        PluginVersion {
            major: self.major,
            minor: self.minor,
            patch: self.patch,
            pre: copy_strings(&self.pre),
            build: copy_strings(&self.build),
        }
    }
}

/// What a plugin says of itself.
#[derive(Debug)]
pub struct PluginMetadata {
    /// plugin name
    name: String,
    /// plugin version
    version: PluginVersion,
    /// vendor
    author: String,
    /// optional plugin description
    description: String,
    /// minimal required app version
    gu_version_req: semver::VersionReq,
    /// scripts to load on startup
    load: Vec<String>,
}

impl PluginMetadata {
    pub closed spec fn spec_name(&self) -> Seq<char> {
        self.name@
    }

    pub closed spec fn spec_version(&self) -> PluginVersionView {
        self.version@
    }

    pub closed spec fn spec_author(&self) -> Seq<char> {
        self.author@
    }

    pub closed spec fn spec_description(&self) -> Seq<char> {
        self.description@
    }

    pub closed spec fn spec_gu_version_req(&self) -> semver::VersionReq {
        self.gu_version_req
    }

    pub closed spec fn spec_load(&self) -> Seq<Seq<char>> {
        self.load.deep_view()
    }

    /// The metadata of a plugin of which nothing was declared: it is called
    /// `plugin`, has the version 0.0.1, and asks for what
    /// `semver::VersionReq::any` builds.
    pub fn new() -> (r: Self)
        ensures
            r.spec_name() == "plugin"@,
            r.spec_version() == plain_version(0, 0, 1),
            r.spec_author() == Seq::<char>::empty(),
            r.spec_description() == Seq::<char>::empty(),
            r.spec_load() == Seq::<Seq<char>>::empty(),
    {
        let r = PluginMetadata {
            name: Self::default_name(),
            version: Self::default_version(),
            author: String::new(),
            description: String::new(),
            gu_version_req: semver::VersionReq::any(),
            load: Vec::new(),
        };
        assert(r.load.deep_view() =~= Seq::<Seq<char>>::empty());
        r
    }

    /// The metadata with every field given.
    pub fn from_parts(
        name: String,
        version: PluginVersion,
        author: String,
        description: String,
        gu_version_req: semver::VersionReq,
        load: Vec<String>,
    ) -> (r: Self)
        ensures
            r.spec_name() == name@,
            r.spec_version() == version@,
            r.spec_author() == author@,
            r.spec_description() == description@,
            r.spec_gu_version_req() == gu_version_req,
            r.spec_load() == load.deep_view(),
    {
        PluginMetadata { name, version, author, description, gu_version_req, load }
    }

    pub fn version(&self) -> (r: PluginVersion)
        ensures
            r@ == self.spec_version(),
    {
        self.version.duplicate()
    }

    pub fn gu_version_req(&self) -> (r: semver::VersionReq)
        ensures
            r == self.spec_gu_version_req(),
    {
        self.gu_version_req.clone()
    }

    pub fn name(&self) -> (r: &str)
        ensures
            r@ == self.spec_name(),
    {
        self.name.as_str()
    }

    pub fn author(&self) -> (r: &str)
        ensures
            r@ == self.spec_author(),
    {
        self.author.as_str()
    }

    pub fn description(&self) -> (r: &str)
        ensures
            r@ == self.spec_description(),
    {
        self.description.as_str()
    }

    pub fn load(&self) -> (r: &Vec<String>)
        ensures
            r.deep_view() == self.spec_load(),
    {
        &self.load
    }

    /// The name of a plugin that declares none.
    pub fn default_name() -> (r: String)
        ensures
            r@ == "plugin"@,
    {
        String::from_str("plugin")
    }

    /// The version of a plugin that declares none: 0.0.1.
    pub fn default_version() -> (r: PluginVersion)
        ensures
            r@ == plain_version(0, 0, 1),
    {
        PluginVersion::new(0, 0, 1)
    }

    /// Whether two pieces of metadata say the same of their plugins.
    pub open spec fn same_as(&self, other: &PluginMetadata) -> bool {
        &&& self.spec_name() == other.spec_name()
        &&& self.spec_version() == other.spec_version()
        &&& self.spec_author() == other.spec_author()
        &&& self.spec_description() == other.spec_description()
        &&& self.spec_gu_version_req() == other.spec_gu_version_req()
        &&& self.spec_load() == other.spec_load()
    }

    /// A copy of this metadata.
    pub fn duplicate(&self) -> (r: Self)
        ensures
            r.same_as(self),
    {
        PluginMetadata {
            name: self.name.clone(),
            version: self.version.duplicate(),
            author: self.author.clone(),
            description: self.description.clone(),
            gu_version_req: self.gu_version_req.clone(),
            load: copy_strings(&self.load),
        }
    }
}

/// Whether a plugin is switched on.
#[derive(Clone, Copy, Debug, PartialEq, Eq, Structural)]
pub enum PluginStatus {
    Active,
    Installed,
    Error,
}

/// The name of a status, as it is shown.
pub open spec fn status_name(status: PluginStatus) -> Seq<char> {
    match status {
        PluginStatus::Active => "Active"@,
        PluginStatus::Installed => "Installed"@,
        PluginStatus::Error => "Error"@,
    }
}

impl PluginStatus {
    /// The name of the status, as it is shown.
    pub fn to_string(&self) -> (r: String)
        ensures
            r@ == status_name(*self),
    {
        match self {
            PluginStatus::Active => String::from_str("Active"),
            PluginStatus::Installed => String::from_str("Installed"),
            PluginStatus::Error => String::from_str("Error"),
        }
    }
}

/// The metadata of a plugin together with its status.
#[derive(Debug)]
pub struct PluginInfo {
    metadata: PluginMetadata,
    status: PluginStatus,
}

impl PluginInfo {
    pub closed spec fn spec_metadata(&self) -> PluginMetadata {
        self.metadata
    }

    pub closed spec fn spec_status(&self) -> PluginStatus {
        self.status
    }

    pub fn new(metadata: PluginMetadata, status: PluginStatus) -> (r: Self)
        ensures
            r.spec_metadata() == metadata,
            r.spec_status() == status,
    {
        PluginInfo { metadata, status }
    }

    /// What a plugin in the state `status` reports of itself, given what
    /// its handler answered when it was asked for the metadata: the
    /// metadata together with the state, or the handler's failure.
    pub fn from_metadata(metadata: Result<PluginMetadata, String>, status: PluginStatus) -> (r: Result<
        PluginInfo,
        String,
    >)
        ensures
            match metadata {
                Ok(meta) => r is Ok && r->Ok_0.spec_metadata() == meta && r->Ok_0.spec_status() == status,
                Err(e) => r is Err && r->Err_0 == e,
            },
    {
        match metadata {
            Ok(meta) => Ok(PluginInfo { metadata: meta, status }),
            Err(e) => Err(e),
        }
    }

    pub fn metadata(&self) -> (r: &PluginMetadata)
        ensures
            *r == self.spec_metadata(),
    {
        &self.metadata
    }

    pub fn status(&self) -> (r: PluginStatus)
        ensures
            r == self.spec_status(),
    {
        self.status
    }
}

/// The table of the installed plugins, ready to be shown.
#[derive(Debug)]
pub enum PluginsTable {
    /// There is no plugin: this line is shown in place of a table.
    Empty(String),
    /// The titles of the columns, and one row for each plugin.
    Rows { titles: Vec<String>, rows: Vec<Vec<String>> },
}

/// Lays the installed plugins out as a table of name, version and status.
/// With no plugin there is no table, only the line `No plugins installed`.
/// Each row holds the plugin's name, the text of its version and the name
/// of its status, in this order.
pub fn format_plugins_table(plugins: &Vec<PluginInfo>) -> (r: PluginsTable)
    ensures
        plugins@.len() == 0 ==> (r matches PluginsTable::Empty(line) && line@ == "No plugins installed"@),
        plugins@.len() > 0 ==> (r matches PluginsTable::Rows { titles, rows } && {
            &&& titles.deep_view() == seq!["Name"@, "Version"@, "Status"@]
            &&& rows@.len() == plugins@.len()
            &&& forall|i: int|
                0 <= i < rows@.len() ==> {
                    &&& (#[trigger] rows@[i])@.len() == 3
                    &&& rows@[i]@[0]@ == plugins@[i].spec_metadata().spec_name()
                    &&& rows@[i]@[1]@ == version_text(plugins@[i].spec_metadata().spec_version())
                    &&& rows@[i]@[2]@ == status_name(plugins@[i].spec_status())
                }
        }),
{
    if plugins.len() == 0 {
        return PluginsTable::Empty(String::from_str("No plugins installed"));
    }
    let mut titles: Vec<String> = Vec::new();
    titles.push(String::from_str("Name"));
    titles.push(String::from_str("Version"));
    titles.push(String::from_str("Status"));
    assert(titles.deep_view() =~= seq!["Name"@, "Version"@, "Status"@]);
    let mut rows: Vec<Vec<String>> = Vec::new();
    let mut i: usize = 0;
    while i < plugins.len()
        invariant
            i <= plugins@.len(),
            rows@.len() == i,
            forall|j: int|
                0 <= j < i ==> {
                    &&& (#[trigger] rows@[j])@.len() == 3
                    &&& rows@[j]@[0]@ == plugins@[j].spec_metadata().spec_name()
                    &&& rows@[j]@[1]@ == version_text(plugins@[j].spec_metadata().spec_version())
                    &&& rows@[j]@[2]@ == status_name(plugins@[j].spec_status())
                },
        decreases plugins@.len() - i,
    {
        let plugin = &plugins[i];
        let mut row: Vec<String> = Vec::new();
        row.push(String::from_str(plugin.metadata().name()));
        row.push(plugin.metadata.version.to_string());
        row.push(plugin.status().to_string());
        rows.push(row);
        i += 1;
    }
    PluginsTable::Rows { titles, rows }
}

/// Trait for providing plugin files
pub trait PluginHandler {
    fn metadata(&self) -> Result<PluginMetadata, String>;

    fn file(&self, path: &std::path::Path) -> Result<Vec<u8>, String>;
}

/// A plugin that lies unpacked in a directory.
#[derive(Debug)]
pub struct DirectoryHandler {
    directory: std::path::PathBuf,
}

impl DirectoryHandler {
    pub closed spec fn spec_directory(&self) -> std::path::PathBuf {
        self.directory
    }

    pub fn new(path: std::path::PathBuf) -> (r: Self)
        ensures
            r.spec_directory() == path,
    {
        Self { directory: path }
    }

    /// The directory that holds the plugin's files.
    pub fn directory(&self) -> (r: &std::path::PathBuf)
        ensures
            *r == self.spec_directory(),
    {
        &self.directory
    }
}

/// The text of a path, through `Path::to_string_lossy`.
///
/// Trusted: nothing is claimed of the text.
#[verifier::external_body]
fn path_text(path: &std::path::Path) -> (r: String) {
    path.to_string_lossy().into_owned()
}

/// A plugin that was read from an archive: its metadata and its files, by name.
#[derive(Debug)]
pub struct ZipHandler {
    metadata: PluginMetadata,
    files: Table<Vec<u8>>,
}

/// The refusal that an archive gives for a file that it does not hold.
pub open spec fn not_found_text(name: Seq<char>) -> Seq<char> {
    "File "@ + debug_text(name) + " not found"@
}

/// Whether `answer` is what an archive with the files `files` answers when
/// it is asked for the file `name`: the content of the file where the
/// archive holds it, and else the refusal that names it.
pub open spec fn served(files: TableModel<Vec<u8>>, name: Seq<char>, answer: Result<Vec<u8>, String>) -> bool {
    if files.contains(name) {
        answer is Ok && answer->Ok_0@ == files.get(name)@
    } else {
        answer is Err && answer->Err_0@ == not_found_text(name)
    }
}

/// The refusal for a file that an archive does not hold, given `quoted`,
/// the `Debug` form of the file's name.
pub fn not_found_message(quoted: &str) -> (r: String)
    ensures
        r@ == "File "@ + quoted@ + " not found"@,
{
    join3("File ", quoted, " not found")
}

impl ZipHandler {
    #[verifier::type_invariant]
    spec fn files_wf(self) -> bool {
        self.files.wf()
    }

    pub closed spec fn spec_metadata(&self) -> PluginMetadata {
        self.metadata
    }

    /// The files of the archive, by name.
    pub closed spec fn spec_files(&self) -> TableModel<Vec<u8>> {
        self.files@
    }

    /// The handler of an archive without files.
    pub fn new(metadata: PluginMetadata) -> (r: Self)
        ensures
            r.spec_metadata() == metadata,
            r.spec_files() == TableModel::<Vec<u8>>::empty(),
    {
        ZipHandler { metadata, files: Table::new() }
    }

    /// Takes a file of the archive in; a later file replaces an earlier one of the same name.
    pub fn add_file(self, name: String, data: Vec<u8>) -> (r: Self)
        ensures
            r.spec_metadata() == self.spec_metadata(),
            r.spec_files() == self.spec_files().put(name@, data),
    {
        proof {
            use_type_invariant(&self);
        }
        let ZipHandler { metadata, files } = self;
        let mut files = files;
        let _ = files.put(name, data);
        ZipHandler { metadata, files }
    }

    /// The content of the file `name`, or the refusal that names it.
    pub fn file_named(&self, name: &String) -> (r: Result<Vec<u8>, String>)
        ensures
            served(self.spec_files(), name@, r),
    {
        proof {
            use_type_invariant(self);
        }
        match self.files.get(name) {
            Some(data) => Ok(data.clone()),
            None => Err(not_found_message(debug_quoted(name.as_str()).as_str())),
        }
    }
}

impl PluginHandler for ZipHandler {
    /// The metadata that came with the archive. This never fails.
    fn metadata(&self) -> (r: Result<PluginMetadata, String>)
        ensures
            r is Ok,
            r->Ok_0.same_as(&self.spec_metadata()),
    {
        Ok(self.metadata.duplicate())
    }

    /// The file that the archive holds under the text of `path`: what
    /// [`ZipHandler::file_named`] answers for that name.
    fn file(&self, path: &std::path::Path) -> (r: Result<Vec<u8>, String>)
        ensures
            exists|name: Seq<char>| served(self.spec_files(), name, r),
    {
        let name = path_text(path);
        let r = self.file_named(&name);
        assert(served(self.spec_files(), name@, r));
        r
    }
}

/// The name of the file that holds a plugin's metadata.
pub fn metadata_file_name() -> (r: &'static str)
    ensures
        r@ == "gu-plugin.json"@,
{
    "gu-plugin.json"
}

/// A plugin with a handler for its files.
pub struct Plugin {
    handler: Box<dyn PluginHandler>,
    status: PluginStatus,
}

/// The refusal that a plugin gives for a file while it is not active.
pub open spec fn not_active_text(status: PluginStatus) -> Seq<char> {
    "Plugin is not active (State - "@ + status_name(status) + ")"@
}

impl Plugin {
    pub closed spec fn spec_status(&self) -> PluginStatus {
        self.status
    }

    /// The handler that provides the plugin's files.
    pub closed spec fn spec_handler(&self) -> Box<dyn PluginHandler> {
        self.handler
    }

    /// A plugin that was installed and not yet activated.
    pub fn new<T: 'static + PluginHandler>(handler: T) -> (r: Self)
        ensures
            r.spec_status() == PluginStatus::Installed,
    {
        Self { handler: Box::new(handler), status: PluginStatus::Installed }
    }

    pub fn activate(&mut self)
        ensures
            final(self).spec_status() == PluginStatus::Active,
            final(self).spec_handler() == old(self).spec_handler(),
    {
        self.status = PluginStatus::Active;
    }

    pub fn inactivate(&mut self)
        ensures
            final(self).spec_status() == PluginStatus::Installed,
            final(self).spec_handler() == old(self).spec_handler(),
    {
        self.status = PluginStatus::Installed;
    }

    pub fn log_error(&mut self, _s: String)
        ensures
            final(self).spec_status() == PluginStatus::Error,
            final(self).spec_handler() == old(self).spec_handler(),
    {
        self.status = PluginStatus::Error;
    }

    pub fn status(&self) -> (r: PluginStatus)
        ensures
            r == self.spec_status(),
    {
        self.status
    }

    /// The handler's metadata together with the plugin's status; the
    /// handler's failure is passed on.
    pub fn info(&self) -> (r: Result<PluginInfo, String>)
        ensures
            r is Ok ==> r->Ok_0.spec_status() == self.spec_status(),
    {
        PluginInfo::from_metadata(self.handler.metadata(), self.status)
    }

    /// A file of the plugin. Only an active plugin asks its handler; any
    /// other is refused with a text that names its state.
    pub fn file(&self, path: &std::path::Path) -> (r: Result<Vec<u8>, String>)
        ensures
            self.spec_status() != PluginStatus::Active ==> r is Err && r->Err_0@ == not_active_text(
                self.spec_status(),
            ),
    {
        match self.status {
            PluginStatus::Active => self.handler.file(path),
            a => Err(join3("Plugin is not active (State - ", a.to_string().as_str(), ")")),
        }
    }

    pub fn metadata(&self) -> (r: Result<PluginMetadata, String>) {
        self.handler.metadata()
    }
}

} // verus!
