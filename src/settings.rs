use vstd::prelude::*;
use vstd::string::StringExecFns;
use crate::json_serde::JsonSerdeWrap;
use crate::text::same_text;

verus! {

/// How much a worker logs.
#[derive(Debug, Clone, Copy, PartialEq, Eq, Structural)]
pub enum WorkerLogLevel {
    Debug,
    Warn,
    Error,
    Off,
}

/// The areas a worker logs about.
#[derive(Debug, Clone, Copy, PartialEq, Eq, Structural)]
pub enum WorkerLogTag {
    Info,
    Ice,
    Dtls,
    Rtp,
    Srtp,
    Rtcp,
    Rtx,
    Bwe,
    Score,
    Simulcast,
    Svc,
    Sctp,
    Message,
}

/// A setting the host runtime sent that names nothing known.
#[derive(Debug, PartialEq)]
pub enum SettingsError {
    InvalidLogLevel(String),
    InvalidLogTag(String),
}

impl SettingsError {
    /// The message the host runtime is given.
    pub fn message(&self) -> String {
        match self {
            SettingsError::InvalidLogLevel(s) => {
                let mut m = String::from_str("invalid type ");
                m.append(s.as_str());
                m.append(" for WorkerLogLevel");
                m
            },
            SettingsError::InvalidLogTag(s) => {
                let mut m = String::from_str("invalid type ");
                m.append(s.as_str());
                m.append(" for WorkerLogTag");
                m
            },
        }
    }
}

/// The log level a name stands for. `Err` is accepted for `error`: it is
/// how the host runtime's `:error` atom arrives.
pub open spec fn level_named(s: Seq<char>) -> Option<WorkerLogLevel> {
    if s == "debug"@ {
        Some(WorkerLogLevel::Debug)
    } else if s == "error"@ || s == "Err"@ {
        Some(WorkerLogLevel::Error)
    } else if s == "none"@ {
        Some(WorkerLogLevel::Off)
    } else if s == "warn"@ {
        Some(WorkerLogLevel::Warn)
    } else {
        None
    }
}

/// The log tag a name stands for.
pub open spec fn tag_named(s: Seq<char>) -> Option<WorkerLogTag> {
    if s == "info"@ {
        Some(WorkerLogTag::Info)
    } else if s == "ice"@ {
        Some(WorkerLogTag::Ice)
    } else if s == "dtls"@ {
        Some(WorkerLogTag::Dtls)
    } else if s == "rtp"@ {
        Some(WorkerLogTag::Rtp)
    } else if s == "srtp"@ {
        Some(WorkerLogTag::Srtp)
    } else if s == "rtcp"@ {
        Some(WorkerLogTag::Rtcp)
    } else if s == "rtx"@ {
        Some(WorkerLogTag::Rtx)
    } else if s == "bwe"@ {
        Some(WorkerLogTag::Bwe)
    } else if s == "score"@ {
        Some(WorkerLogTag::Score)
    } else if s == "simulcast"@ {
        Some(WorkerLogTag::Simulcast)
    } else if s == "svc"@ {
        Some(WorkerLogTag::Svc)
    } else if s == "sctp"@ {
        Some(WorkerLogTag::Sctp)
    } else if s == "message"@ {
        Some(WorkerLogTag::Message)
    } else {
        None
    }
}

pub fn log_level_from_string(s: &str) -> (r: Result<WorkerLogLevel, SettingsError>)
    ensures
        level_named(s@) is Some ==> r == Ok::<WorkerLogLevel, SettingsError>(level_named(s@)->Some_0),
        level_named(s@) is None ==> r is Err && r->Err_0 is InvalidLogLevel
            && r->Err_0->InvalidLogLevel_0@ == s@,
{
    if same_text(s, "debug") {
        Ok(WorkerLogLevel::Debug)
    } else if same_text(s, "error") || same_text(s, "Err") {
        Ok(WorkerLogLevel::Error)
    } else if same_text(s, "none") {
        Ok(WorkerLogLevel::Off)
    } else if same_text(s, "warn") {
        Ok(WorkerLogLevel::Warn)
    } else {
        Err(SettingsError::InvalidLogLevel(String::from_str(s)))
    }
}

pub fn log_tag_from_string(s: &str) -> (r: Result<WorkerLogTag, SettingsError>)
    ensures
        tag_named(s@) is Some ==> r == Ok::<WorkerLogTag, SettingsError>(tag_named(s@)->Some_0),
        tag_named(s@) is None ==> r is Err && r->Err_0 is InvalidLogTag && r->Err_0->InvalidLogTag_0@
            == s@,
{
    if same_text(s, "info") {
        Ok(WorkerLogTag::Info)
    } else if same_text(s, "ice") {
        Ok(WorkerLogTag::Ice)
    } else if same_text(s, "dtls") {
        Ok(WorkerLogTag::Dtls)
    } else if same_text(s, "rtp") {
        Ok(WorkerLogTag::Rtp)
    } else if same_text(s, "srtp") {
        Ok(WorkerLogTag::Srtp)
    } else if same_text(s, "rtcp") {
        Ok(WorkerLogTag::Rtcp)
    } else if same_text(s, "rtx") {
        Ok(WorkerLogTag::Rtx)
    } else if same_text(s, "bwe") {
        Ok(WorkerLogTag::Bwe)
    } else if same_text(s, "score") {
        Ok(WorkerLogTag::Score)
    } else if same_text(s, "simulcast") {
        Ok(WorkerLogTag::Simulcast)
    } else if same_text(s, "svc") {
        Ok(WorkerLogTag::Svc)
    } else if same_text(s, "sctp") {
        Ok(WorkerLogTag::Sctp)
    } else if same_text(s, "message") {
        Ok(WorkerLogTag::Message)
    } else {
        Err(SettingsError::InvalidLogTag(String::from_str(s)))
    }
}

/// Whether every name in `names` is a log tag.
pub open spec fn all_tags_named(names: Seq<String>) -> bool {
    forall|i: int| 0 <= i < names.len() ==> tag_named((#[trigger] names[i])@) is Some
}

/// Parses each name as a log tag; the first name that is none fails the whole.
pub fn log_tags_from_strings(v: &Vec<String>) -> (r: Result<Vec<WorkerLogTag>, SettingsError>)
    ensures
        r is Ok <==> all_tags_named(v@),
        r is Ok ==> r->Ok_0@.len() == v@.len() && forall|i: int|
            0 <= i < v@.len() ==> Some(r->Ok_0@[i]) == tag_named((#[trigger] v@[i])@),
        r is Err ==> exists|i: int|
            0 <= i < v@.len() && tag_named((#[trigger] v@[i])@) is None && (forall|j: int|
                0 <= j < i ==> tag_named(v@[j]@) is Some) && r->Err_0 is InvalidLogTag
                && r->Err_0->InvalidLogTag_0@ == v@[i]@,
{
    let mut out: Vec<WorkerLogTag> = Vec::new();
    let mut i: usize = 0;
    while i < v.len()
        invariant
            i <= v@.len(),
            out@.len() == i,
            forall|j: int| 0 <= j < i ==> Some(out@[j]) == tag_named((#[trigger] v@[j])@),
        decreases v.len() - i,
    {
        match log_tag_from_string(v[i].as_str()) {
            Ok(t) => out.push(t),
            Err(e) => {
                assert(tag_named(v@[i as int]@) is None);
                return Err(e);
            },
        }
        i += 1;
    }
    Ok(out)
}

/// The certificate and private key files a worker's DTLS uses.
#[derive(Debug, PartialEq)]
pub struct WorkerDtlsFiles {
    pub certificate: String,
    pub private_key: String,
}

/// The settings a worker is created with.
#[derive(Debug, PartialEq)]
pub struct WorkerSettings {
    pub log_level: WorkerLogLevel,
    pub log_tags: Vec<WorkerLogTag>,
    /// The lowest port of the range for media, included.
    pub rtc_min_port: u16,
    /// The highest port of the range for media, included.
    pub rtc_max_port: u16,
    pub dtls_files: Option<WorkerDtlsFiles>,
}

pub const DEFAULT_RTC_MIN_PORT: u16 = 10000;

pub const DEFAULT_RTC_MAX_PORT: u16 = 59999;

/// Every log tag, in the order a default worker lists them.
pub open spec fn all_tags() -> Seq<WorkerLogTag> {
    seq![
        WorkerLogTag::Info,
        WorkerLogTag::Ice,
        WorkerLogTag::Dtls,
        WorkerLogTag::Rtp,
        WorkerLogTag::Srtp,
        WorkerLogTag::Rtcp,
        WorkerLogTag::Rtx,
        WorkerLogTag::Bwe,
        WorkerLogTag::Score,
        WorkerLogTag::Simulcast,
        WorkerLogTag::Svc,
        WorkerLogTag::Sctp,
        WorkerLogTag::Message,
    ]
}

impl WorkerSettings {
    /// The native library's defaults: debug level, every tag, ports
    /// 10000 to 59999, no DTLS files.
    pub fn defaults() -> (r: Self)
        ensures
            r.log_level == WorkerLogLevel::Debug,
            r.log_tags@ == all_tags(),
            r.rtc_min_port == DEFAULT_RTC_MIN_PORT,
            r.rtc_max_port == DEFAULT_RTC_MAX_PORT,
            r.dtls_files is None,
    {
        let tags = vec![
            WorkerLogTag::Info,
            WorkerLogTag::Ice,
            WorkerLogTag::Dtls,
            WorkerLogTag::Rtp,
            WorkerLogTag::Srtp,
            WorkerLogTag::Rtcp,
            WorkerLogTag::Rtx,
            WorkerLogTag::Bwe,
            WorkerLogTag::Score,
            WorkerLogTag::Simulcast,
            WorkerLogTag::Svc,
            WorkerLogTag::Sctp,
            WorkerLogTag::Message,
        ];
        assert(tags@ =~= all_tags());
        WorkerSettings {
            log_level: WorkerLogLevel::Debug,
            log_tags: tags,
            rtc_min_port: DEFAULT_RTC_MIN_PORT,
            rtc_max_port: DEFAULT_RTC_MAX_PORT,
            dtls_files: None,
        }
    }
}

/// The settings a running worker can change; `None` keeps the current one.
#[derive(Debug, PartialEq)]
pub struct WorkerUpdateSettings {
    pub log_level: Option<WorkerLogLevel>,
    pub log_tags: Option<Vec<WorkerLogTag>>,
}

/// Worker settings as the host runtime sends them; an absent field keeps
/// the default.
pub struct WorkerSettingsStruct {
    pub log_level: Option<JsonSerdeWrap<String>>,
    pub log_tags: Option<JsonSerdeWrap<Vec<String>>>,
    pub rtc_min_port: Option<u16>,
    pub rtc_max_port: Option<u16>,
    pub dtls_certificate_file: Option<String>,
    pub dtls_private_key_file: Option<String>,
}

/// Whether a requested log level, if any, names one.
pub open spec fn level_ok(l: Option<JsonSerdeWrap<String>>) -> bool {
    match l {
        Some(s) => level_named(s@@) is Some,
        None => true,
    }
}

/// Whether requested log tags, if any, all name one.
pub open spec fn tags_ok(t: Option<JsonSerdeWrap<Vec<String>>>) -> bool {
    match t {
        Some(v) => all_tags_named(v@@),
        None => true,
    }
}

/// The tags a list of names stands for, where all name one.
pub open spec fn tags_of(names: Seq<String>) -> Seq<WorkerLogTag> {
    Seq::new(names.len(), |i: int| tag_named(names[i]@)->Some_0)
}

impl WorkerSettingsStruct {
    /// The worker settings these values stand for: the defaults, with each
    /// field that is present put in place. DTLS files are used only when
    /// both are given. An unknown log level, or else an unknown log tag, is
    /// an error.
    pub fn try_to_setting(&self) -> (r: Result<WorkerSettings, SettingsError>)
        ensures
            r is Ok <==> level_ok(self.log_level) && tags_ok(self.log_tags),
            !level_ok(self.log_level) ==> r is Err && r->Err_0 is InvalidLogLevel,
            level_ok(self.log_level) && !tags_ok(self.log_tags) ==> r is Err && r->Err_0 is InvalidLogTag,
            r is Ok ==> {
                let s = r->Ok_0;
                &&& s.log_level == match self.log_level {
                    Some(l) => level_named(l@@)->Some_0,
                    None => WorkerLogLevel::Debug,
                }
                &&& s.log_tags@ == match self.log_tags {
                    Some(t) => tags_of(t@@),
                    None => all_tags(),
                }
                &&& s.rtc_min_port == match self.rtc_min_port {
                    Some(p) => p,
                    None => DEFAULT_RTC_MIN_PORT,
                }
                &&& s.rtc_max_port == match self.rtc_max_port {
                    Some(p) => p,
                    None => DEFAULT_RTC_MAX_PORT,
                }
                &&& s.dtls_files is Some <==> self.dtls_certificate_file is Some
                    && self.dtls_private_key_file is Some
                &&& s.dtls_files is Some ==> s.dtls_files->Some_0.certificate@
                    == self.dtls_certificate_file->Some_0@
                    && s.dtls_files->Some_0.private_key@ == self.dtls_private_key_file->Some_0@
            },
    {
        let mut value = WorkerSettings::defaults();
        match &self.log_level {
            Some(l) => {
                value.log_level = log_level_from_string(l.get().as_str())?;
            },
            None => {},
        }
        match &self.log_tags {
            Some(t) => {
                let tags = log_tags_from_strings(t.get())?;
                proof {
                    assert(tags@ =~= tags_of(t@@));
                }
                value.log_tags = tags;
            },
            None => {},
        }
        value.rtc_min_port = match self.rtc_min_port {
            Some(p) => p,
            None => value.rtc_min_port,
        };
        value.rtc_max_port = match self.rtc_max_port {
            Some(p) => p,
            None => value.rtc_max_port,
        };
        match (&self.dtls_certificate_file, &self.dtls_private_key_file) {
            (Some(cert), Some(key)) => {
                value.dtls_files = Some(
                    WorkerDtlsFiles { certificate: cert.clone(), private_key: key.clone() },
                );
            },
            _ => {},
        }
        Ok(value)
    }
}

/// Worker settings to change, as the host runtime sends them.
pub struct WorkerUpdateableSettingsStruct {
    pub log_level: Option<JsonSerdeWrap<String>>,
    pub log_tags: Option<JsonSerdeWrap<Vec<String>>>,
}

impl WorkerUpdateableSettingsStruct {
    /// The update these values stand for; an unknown log level, or else an
    /// unknown log tag, is an error.
    pub fn try_to_setting(&self) -> (r: Result<WorkerUpdateSettings, SettingsError>)
        ensures
            r is Ok <==> level_ok(self.log_level) && tags_ok(self.log_tags),
            !level_ok(self.log_level) ==> r is Err && r->Err_0 is InvalidLogLevel,
            level_ok(self.log_level) && !tags_ok(self.log_tags) ==> r is Err && r->Err_0 is InvalidLogTag,
            r is Ok ==> {
                let s = r->Ok_0;
                &&& s.log_level == match self.log_level {
                    Some(l) => Some(level_named(l@@)->Some_0),
                    None => None,
                }
                &&& s.log_tags is Some <==> self.log_tags is Some
                &&& s.log_tags is Some ==> s.log_tags->Some_0@ == tags_of(self.log_tags->Some_0@@)
            },
    {
        let log_level = match &self.log_level {
            Some(l) => Some(log_level_from_string(l.get().as_str())?),
            None => None,
        };
        let log_tags = match &self.log_tags {
            Some(t) => {
                let tags = log_tags_from_strings(t.get())?;
                proof {
                    assert(tags@ =~= tags_of(t@@));
                }
                Some(tags)
            },
            None => None,
        };
        Ok(WorkerUpdateSettings { log_level, log_tags })
    }
}

} // verus!
