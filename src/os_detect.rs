//! Detection of the host operating system.
//!
//! Gathering information takes two outside queries per platform (a command run,
//! or a file read). The detector does not run them itself: each call of a
//! gatherer or of [`OsDetector::get_os_info`] is handed the outcomes of the
//! queries made so far and answers with the next query to make, or with the
//! finished result.
use vstd::prelude::*;
use crate::text::{
    after_first, after_first_char, contains, contains_str, lines_of, same_text, split_lines, starts_with,
    starts_with_str, texts, trim, trim_quotes, trimmed, unquoted,
};

verus! {

/// Why a detection attempt failed.
#[derive(Debug)]
pub enum OsDetectorError {
    /// A query could not be launched, its output could not be obtained, or a
    /// required file could not be read; holds the underlying description.
    CommandFailed(String),
    /// The platform tag is none of the three supported families; holds the tag.
    UnsupportedOs(String),
    /// A query's output could not be interpreted; holds an explanation.
    ParseError(String),
}

/// An [`OsDetectorError`] as plain text.
pub enum ErrorView {
    CommandFailed(Seq<char>),
    UnsupportedOs(Seq<char>),
    ParseError(Seq<char>),
}

impl View for OsDetectorError {
    type V = ErrorView;

    open spec fn view(&self) -> ErrorView {
        match self {
            OsDetectorError::CommandFailed(m) => ErrorView::CommandFailed(m@),
            OsDetectorError::UnsupportedOs(m) => ErrorView::UnsupportedOs(m@),
            OsDetectorError::ParseError(m) => ErrorView::ParseError(m@),
        }
    }
}

/// The text of an error as a reader sees it.
pub open spec fn error_message(e: ErrorView) -> Seq<char> {
    match e {
        ErrorView::CommandFailed(m) => "Command execution failed: "@ + m,
        ErrorView::UnsupportedOs(m) => "Unsupported operating system: "@ + m,
        ErrorView::ParseError(m) => "Failed to parse system information: "@ + m,
    }
}

impl OsDetectorError {
    /// The error as a sentence.
    pub fn message(&self) -> (r: String)
        ensures
            r@ == error_message(self@),
    {
        let (mut r, detail) = match self {
            OsDetectorError::CommandFailed(m) => (String::from_str("Command execution failed: "), m),
            OsDetectorError::UnsupportedOs(m) => (
                String::from_str("Unsupported operating system: "),
                m,
            ),
            OsDetectorError::ParseError(m) => (
                String::from_str("Failed to parse system information: "),
                m,
            ),
        };
        r.append(detail.as_str());
        r
    }
}

/// Information about an operating system.
#[derive(Debug)]
pub struct OsInfo {
    pub name: String,
    pub version: String,
    pub architecture: String,
    pub additional_info: Option<String>,
}

/// An [`OsInfo`] as plain text.
pub struct InfoView {
    pub name: Seq<char>,
    pub version: Seq<char>,
    pub architecture: Seq<char>,
    pub additional_info: Option<Seq<char>>,
}

/// The text of an optional string.
pub open spec fn opt_view(o: Option<String>) -> Option<Seq<char>> {
    match o {
        Some(s) => Some(s@),
        None => None,
    }
}

impl View for OsInfo {
    type V = InfoView;

    open spec fn view(&self) -> InfoView {
        InfoView {
            name: self.name@,
            version: self.version@,
            architecture: self.architecture@,
            additional_info: opt_view(self.additional_info),
        }
    }
}

fn copy_opt(o: &Option<String>) -> (r: Option<String>)
    ensures
        opt_view(r) == opt_view(*o),
{
    match o {
        Some(s) => Some(s.clone()),
        None => None,
    }
}

impl Clone for OsInfo {
    /// A copy equal to `self` in every field.
    fn clone(&self) -> (r: Self)
        ensures
            r@ == self@,
    {
        OsInfo {
            name: self.name.clone(),
            version: self.version.clone(),
            architecture: self.architecture.clone(),
            additional_info: copy_opt(&self.additional_info),
        }
    }
}

impl OsInfo {
    /// A record of the four fields as given.
    pub fn new(
        name: String,
        version: String,
        architecture: String,
        additional_info: Option<String>,
    ) -> (r: Self)
        ensures
            r.name == name,
            r.version == version,
            r.architecture == architecture,
            r.additional_info == additional_info,
    {
        OsInfo { name, version, architecture, additional_info }
    }
}

/// A supported platform family.
#[derive(Debug, Clone, Copy, PartialEq, Eq, Structural)]
pub enum Platform {
    Windows,
    Linux,
    MacOs,
}

/// An outside query that a gatherer asks for.
#[derive(Debug, Clone, Copy, PartialEq, Eq, Structural)]
pub enum Probe {
    /// The Windows version command (`cmd /C ver`).
    WindowsVersion,
    /// The Windows system-information command (`cmd /C systeminfo`).
    WindowsSystemInfo,
    /// The contents of the OS-release file (`/etc/os-release`).
    OsRelease,
    /// The kernel-release command (`uname -r`).
    KernelRelease,
    /// The macOS product-version command (`sw_vers -productVersion`).
    MacProductVersion,
    /// The macOS build-version command (`sw_vers -buildVersion`).
    MacBuildVersion,
}

impl Probe {
    /// The platform whose gatherer asks for this query.
    pub open spec fn platform(self) -> Platform {
        match self {
            Probe::WindowsVersion | Probe::WindowsSystemInfo => Platform::Windows,
            Probe::OsRelease | Probe::KernelRelease => Platform::Linux,
            Probe::MacProductVersion | Probe::MacBuildVersion => Platform::MacOs,
        }
    }
}

/// What to do next: make a query, or take the finished result.
#[derive(Debug)]
pub enum Step {
    Run(Probe),
    Done(Result<OsInfo, OsDetectorError>),
}

/// A [`Step`] as plain values.
pub enum StepView {
    Run(Probe),
    Done(Result<InfoView, ErrorView>),
}

impl View for Step {
    type V = StepView;

    open spec fn view(&self) -> StepView {
        match self {
            Step::Run(p) => StepView::Run(*p),
            Step::Done(Ok(i)) => StepView::Done(Ok(i@)),
            Step::Done(Err(e)) => StepView::Done(Err(e@)),
        }
    }
}

/// The outcome of one query as text: its output, or why it could not be had.
pub open spec fn outcome_view(o: Result<String, String>) -> Result<Seq<char>, Seq<char>> {
    match o {
        Ok(s) => Ok(s@),
        Err(e) => Err(e@),
    }
}

/// The outcomes of the queries made so far, in order, as text.
pub open spec fn outcomes_view(v: Seq<Result<String, String>>) -> Seq<Result<Seq<char>, Seq<char>>> {
    v.map_values(|o: Result<String, String>| outcome_view(o))
}

/// A finished step that failed because a query could not be had.
pub open spec fn launch_failure(e: Seq<char>) -> StepView {
    StepView::Done(Err(ErrorView::CommandFailed(e)))
}

/// The Windows version: the first line of the version command's output.
pub open spec fn windows_version(out: Seq<char>) -> Option<Seq<char>> {
    if lines_of(out).len() > 0 {
        Some(lines_of(out)[0])
    } else {
        None
    }
}

/// The first line from index `i` on that contains `OS Build`.
pub open spec fn build_line_from(lines: Seq<Seq<char>>, i: int) -> Option<Seq<char>>
    decreases lines.len() - i,
{
    if 0 <= i < lines.len() {
        if contains(lines[i], "OS Build"@) {
            Some(lines[i])
        } else {
            build_line_from(lines, i + 1)
        }
    } else {
        None
    }
}

/// The Windows build number: what follows the first colon of the first line of
/// the system information that contains `OS Build`, trimmed; `Unknown` where no
/// line contains it.
pub open spec fn windows_build(out: Seq<char>) -> Seq<char> {
    match build_line_from(lines_of(out), 0) {
        Some(l) => trimmed(after_first(l, ':')),
        None => "Unknown"@,
    }
}

/// What the Windows gatherer does, given the outcomes of its queries so far:
/// the version command, then the system-information command.
pub open spec fn windows_step(arch: Seq<char>, o: Seq<Result<Seq<char>, Seq<char>>>) -> StepView {
    if o.len() == 0 {
        StepView::Run(Probe::WindowsVersion)
    } else {
        match o[0] {
            Err(e) => launch_failure(e),
            Ok(ver) => match windows_version(ver) {
                None => StepView::Done(Err(ErrorView::ParseError("Unable to read Windows version"@))),
                Some(v) => if o.len() == 1 {
                    StepView::Run(Probe::WindowsSystemInfo)
                } else {
                    match o[1] {
                        Err(e) => launch_failure(e),
                        Ok(info) => StepView::Done(
                            Ok(
                                InfoView {
                                    name: "Windows"@,
                                    version: v,
                                    architecture: arch,
                                    additional_info: Some("Build: "@ + windows_build(info)),
                                },
                            ),
                        ),
                    }
                },
            },
        }
    }
}

/// The value of the last line that starts with `key`, with the key taken off
/// and surrounding double quotes stripped; empty where no line starts with it.
pub open spec fn last_field(lines: Seq<Seq<char>>, key: Seq<char>) -> Seq<char>
    decreases lines.len(),
{
    if lines.len() == 0 {
        Seq::empty()
    } else if starts_with(lines.last(), key) {
        unquoted(lines.last().subrange(key.len() as int, lines.last().len() as int))
    } else {
        last_field(lines.drop_last(), key)
    }
}

/// The OS name given by an OS-release text.
pub open spec fn release_name(text: Seq<char>) -> Seq<char> {
    last_field(lines_of(text), "NAME="@)
}

/// The OS version given by an OS-release text.
pub open spec fn release_version(text: Seq<char>) -> Seq<char> {
    last_field(lines_of(text), "VERSION="@)
}

/// What the Linux gatherer does, given the outcomes of its queries so far:
/// the OS-release file, then the kernel-release command.
pub open spec fn linux_step(arch: Seq<char>, o: Seq<Result<Seq<char>, Seq<char>>>) -> StepView {
    if o.len() == 0 {
        StepView::Run(Probe::OsRelease)
    } else {
        match o[0] {
            Err(e) => launch_failure(e),
            Ok(release) => if o.len() == 1 {
                StepView::Run(Probe::KernelRelease)
            } else {
                match o[1] {
                    Err(e) => launch_failure(e),
                    Ok(kernel) => StepView::Done(
                        Ok(
                            InfoView {
                                name: release_name(release),
                                version: release_version(release),
                                architecture: arch,
                                additional_info: Some(trimmed(kernel)),
                            },
                        ),
                    ),
                }
            },
        }
    }
}

/// What the macOS gatherer does, given the outcomes of its queries so far:
/// the product-version command, then the build-version command.
pub open spec fn macos_step(arch: Seq<char>, o: Seq<Result<Seq<char>, Seq<char>>>) -> StepView {
    if o.len() == 0 {
        StepView::Run(Probe::MacProductVersion)
    } else {
        match o[0] {
            Err(e) => launch_failure(e),
            Ok(product) => if o.len() == 1 {
                StepView::Run(Probe::MacBuildVersion)
            } else {
                match o[1] {
                    Err(e) => launch_failure(e),
                    Ok(build) => StepView::Done(
                        Ok(
                            InfoView {
                                name: "macOS"@,
                                version: trimmed(product),
                                architecture: arch,
                                additional_info: Some("Build: "@ + trimmed(build)),
                            },
                        ),
                    ),
                }
            },
        }
    }
}

/// What the gatherer of `p` does.
pub open spec fn gather_step(
    p: Platform,
    arch: Seq<char>,
    o: Seq<Result<Seq<char>, Seq<char>>>,
) -> StepView {
    match p {
        Platform::Windows => windows_step(arch, o),
        Platform::Linux => linux_step(arch, o),
        Platform::MacOs => macos_step(arch, o),
    }
}

/// The platform that a platform tag names, if it is supported.
pub open spec fn platform_of(tag: Seq<char>) -> Option<Platform> {
    if tag == "windows"@ {
        Some(Platform::Windows)
    } else if tag == "linux"@ {
        Some(Platform::Linux)
    } else if tag == "macos"@ {
        Some(Platform::MacOs)
    } else {
        None
    }
}

/// A query of a detector whose cache is `cache`: the cache afterwards, and the step.
/// A cached value is returned at once; otherwise the tag picks the gatherer, and
/// a finished success is cached.
pub open spec fn query(
    cache: Option<InfoView>,
    tag: Seq<char>,
    arch: Seq<char>,
    o: Seq<Result<Seq<char>, Seq<char>>>,
) -> (Option<InfoView>, StepView) {
    match cache {
        Some(i) => (cache, StepView::Done(Ok(i))),
        None => {
            let step = match platform_of(tag) {
                None => StepView::Done(Err(ErrorView::UnsupportedOs(tag))),
                Some(p) => gather_step(p, arch, o),
            };
            match step {
                StepView::Done(Ok(i)) => (Some(i), step),
                _ => (None, step),
            }
        },
    }
}

/// The text of an optional record.
pub open spec fn opt_info_view(o: Option<OsInfo>) -> Option<InfoView> {
    match o {
        Some(i) => Some(i@),
        None => None,
    }
}

/// Detects the host operating system and remembers the first successful result.
pub struct OsDetector {
    cached_info: Option<OsInfo>,
}

impl View for OsDetector {
    type V = Option<InfoView>;

    closed spec fn view(&self) -> Option<InfoView> {
        opt_info_view(self.cached_info)
    }
}

fn platform_from_tag(tag: &str) -> (r: Option<Platform>)
    ensures
        r == platform_of(tag@),
{
    if same_text(tag, "windows") {
        Some(Platform::Windows)
    } else if same_text(tag, "linux") {
        Some(Platform::Linux)
    } else if same_text(tag, "macos") {
        Some(Platform::MacOs)
    } else {
        None
    }
}

fn launch_error(e: &String) -> (r: Step)
    ensures
        r@ == launch_failure(e@),
{
    Step::Done(Err(OsDetectorError::CommandFailed(e.clone())))
}

/// `Build: ` followed by `detail`.
fn build_text(detail: &str) -> (r: String)
    ensures
        r@ == "Build: "@ + detail@,
{
    let mut r = String::from_str("Build: ");
    r.append(detail);
    r
}

/// The value of the last of `lines` that starts with `key`.
fn release_field(lines: &Vec<String>, key: &str) -> (r: String)
    ensures
        r@ == last_field(texts(lines@), key@),
{
    let ghost all = texts(lines@);
    let mut value = String::new();
    let mut i: usize = 0;
    assert(all.take(0) =~= Seq::<Seq<char>>::empty());
    while i < lines.len()
        invariant
            all == texts(lines@),
            i <= lines.len(),
            value@ == last_field(all.take(i as int), key@),
        decreases lines.len() - i,
    {
        let line = lines[i].as_str();
        assert(all.take(i + 1).drop_last() =~= all.take(i as int));
        assert(all.take(i + 1).last() == line@);
        if starts_with_str(line, key) {
            value = trim_quotes(line.substring_char(key.unicode_len(), line.unicode_len()));
        }
        i = i + 1;
    }
    assert(all.take(lines.len() as int) =~= all);
    value
}

impl Default for OsDetector {
    /// A detector with nothing cached.
    fn default() -> (r: Self)
        ensures
            r@ is None,
    {
        OsDetector::new()
    }
}

impl OsDetector {
    /// A detector with nothing cached.
    pub fn new() -> (r: Self)
        ensures
            r@ is None,
    {
        OsDetector { cached_info: None }
    }

    /// What the detector has cached.
    pub fn cached_info(&self) -> (r: &Option<OsInfo>)
        ensures
            opt_info_view(*r) == self@,
    {
        &self.cached_info
    }

    /// One query of the detector, handed the platform tag, the architecture and
    /// the outcomes of the queries made so far in this attempt. A cached result
    /// comes back at once and asks for no query; otherwise the tag picks the
    /// gatherer, an unsupported tag fails, and a finished success is cached.
    pub fn get_os_info(
        &mut self,
        platform_tag: &str,
        arch: &str,
        outcomes: &Vec<Result<String, String>>,
    ) -> (r: Step)
        ensures
            (final(self)@, r@) == query(old(self)@, platform_tag@, arch@, outcomes_view(outcomes@)),
    {
        if let Some(info) = &self.cached_info {
            return Step::Done(Ok(info.clone()));
        }
        let step = match platform_from_tag(platform_tag) {
            None => {
                return Step::Done(Err(OsDetectorError::UnsupportedOs(String::from_str(platform_tag))));
            },
            Some(Platform::Windows) => self.get_windows_info(arch, outcomes),
            Some(Platform::Linux) => self.get_linux_info(arch, outcomes),
            Some(Platform::MacOs) => self.get_macos_info(arch, outcomes),
        };
        if let Step::Done(Ok(info)) = &step {
            self.cached_info = Some(info.clone());
        }
        step
    }

    /// The Windows gatherer: the version command, then the system-information command.
    pub fn get_windows_info(&self, arch: &str, outcomes: &Vec<Result<String, String>>) -> (r: Step)
        ensures
            r@ == windows_step(arch@, outcomes_view(outcomes@)),
    {
        if outcomes.len() == 0 {
            return Step::Run(Probe::WindowsVersion);
        }
        let ver = match &outcomes[0] {
            Err(e) => return launch_error(e),
            Ok(v) => v,
        };
        let lines = split_lines(ver.as_str());
        if lines.len() == 0 {
            let msg = String::from_str("Unable to read Windows version");
            return Step::Done(Err(OsDetectorError::ParseError(msg)));
        }
        let version = lines[0].clone();
        if outcomes.len() == 1 {
            return Step::Run(Probe::WindowsSystemInfo);
        }
        let info = match &outcomes[1] {
            Err(e) => return launch_error(e),
            Ok(i) => i,
        };
        let build = self.get_windows_build_info(info.as_str());
        Step::Done(
            Ok(
                OsInfo {
                    name: String::from_str("Windows"),
                    version,
                    architecture: String::from_str(arch),
                    additional_info: Some(build),
                },
            ),
        )
    }

    /// The Linux gatherer: the OS-release file, then the kernel-release command.
    pub fn get_linux_info(&self, arch: &str, outcomes: &Vec<Result<String, String>>) -> (r: Step)
        ensures
            r@ == linux_step(arch@, outcomes_view(outcomes@)),
    {
        if outcomes.len() == 0 {
            return Step::Run(Probe::OsRelease);
        }
        let release = match &outcomes[0] {
            Err(e) => return launch_error(e),
            Ok(v) => v,
        };
        if outcomes.len() == 1 {
            return Step::Run(Probe::KernelRelease);
        }
        let kernel = match &outcomes[1] {
            Err(e) => return launch_error(e),
            Ok(k) => k,
        };
        let lines = split_lines(release.as_str());
        Step::Done(
            Ok(
                OsInfo {
                    name: release_field(&lines, "NAME="),
                    version: release_field(&lines, "VERSION="),
                    architecture: String::from_str(arch),
                    additional_info: Some(trim(kernel.as_str())),
                },
            ),
        )
    }

    /// The macOS gatherer: the product-version command, then the build-version command.
    pub fn get_macos_info(&self, arch: &str, outcomes: &Vec<Result<String, String>>) -> (r: Step)
        ensures
            r@ == macos_step(arch@, outcomes_view(outcomes@)),
    {
        if outcomes.len() == 0 {
            return Step::Run(Probe::MacProductVersion);
        }
        let product = match &outcomes[0] {
            Err(e) => return launch_error(e),
            Ok(v) => v,
        };
        if outcomes.len() == 1 {
            return Step::Run(Probe::MacBuildVersion);
        }
        let build = match &outcomes[1] {
            Err(e) => return launch_error(e),
            Ok(b) => b,
        };
        let detail = trim(build.as_str());
        Step::Done(
            Ok(
                OsInfo {
                    name: String::from_str("macOS"),
                    version: trim(product.as_str()),
                    architecture: String::from_str(arch),
                    additional_info: Some(build_text(detail.as_str())),
                },
            ),
        )
    }

    /// The build detail of the Windows system information `info`.
    fn get_windows_build_info(&self, info: &str) -> (r: String)
        ensures
            r@ == "Build: "@ + windows_build(info@),
    {
        let lines = split_lines(info);
        let ghost all = texts(lines@);
        let mut i: usize = 0;
        while i < lines.len()
            invariant
                all == texts(lines@),
                all == lines_of(info@),
                i <= lines.len(),
                build_line_from(all, i as int) == build_line_from(all, 0),
            decreases lines.len() - i,
        {
            let line = lines[i].as_str();
            assert(all[i as int] == line@);
            if contains_str(line, "OS Build") {
                let detail = trim(after_first_char(line, ':').as_str());
                return build_text(detail.as_str());
            }
            i = i + 1;
        }
        build_text("Unknown")
    }
}

} // verus!
