use vstd::prelude::*;

use crate::config::WakaTimeConfig;
use crate::dispatch::{planned, Dispatch};
use crate::event::{Timestamp, WakaTimeCategory, WakaTimeEntityType, WakaTimeEvent};
use crate::json::json_quoted;
use crate::project::{get_project_name, opt_view};

verus! {

/// What a heartbeat needs to know of a document and its primary cursor.
#[derive(Debug, Clone)]
pub struct DocumentInfo {
    /// The file behind the document; absent for a buffer never saved.
    pub path: Option<String>,
    /// The language the host classified the document as.
    pub language: Option<String>,
    /// The number of lines of the text.
    pub lines: u32,
    /// The character offset of the primary cursor.
    pub cursor: u32,
    /// The 0-based index of the line that holds the primary cursor.
    pub cursor_line: u32,
}

impl DocumentInfo {
    /// The cursor stands on one of the document's lines.
    pub open spec fn wf(self) -> bool {
        self.cursor_line < self.lines
    }
}

/// Whether a heartbeat is made for the document under `config`.
pub open spec fn is_tracked(doc: DocumentInfo, config: WakaTimeConfig) -> bool {
    config.enabled && doc.path is Some
}

/// The project a heartbeat reports: none when project names are hidden,
/// else the configured override, else the inferred one.
pub open spec fn reported_project(config: WakaTimeConfig, inferred: Option<String>) -> Option<Seq<char>> {
    if config.hide_project_names {
        None
    } else if config.project is Some {
        opt_view(config.project)
    } else {
        opt_view(inferred)
    }
}

/// `ev` is the heartbeat for the tracked document `doc` at `time`.
pub open spec fn is_heartbeat_for(
    ev: WakaTimeEvent,
    doc: DocumentInfo,
    is_write: bool,
    config: WakaTimeConfig,
    inferred: Option<String>,
    time: Timestamp,
) -> bool {
    match ev {
        WakaTimeEvent::Heartbeat {
            entity,
            type_,
            category,
            time: t,
            project,
            language,
            is_write: w,
            lines,
            lineno,
            cursorpos,
        } => {
            &&& entity@ == (if config.hide_file_names {
                "HIDDEN"@
            } else {
                doc.path.unwrap()@
            })
            &&& type_ == WakaTimeEntityType::File
            &&& category == WakaTimeCategory::Coding
            &&& t == time
            &&& opt_view(project) == reported_project(config, inferred)
            &&& opt_view(language) == opt_view(doc.language)
            &&& w == is_write
            &&& lines == Some(doc.lines)
            &&& lineno == Some((doc.cursor_line + 1) as u32)
            &&& cursorpos == Some(doc.cursor)
        },
    }
}

fn clone_opt(o: &Option<String>) -> (r: Option<String>)
    ensures
        opt_view(r) == opt_view(*o),
{
    match o {
        Some(s) => Some(s.clone()),
        None => None,
    }
}

/// The language the host classified the document as, if any.
pub fn get_language_name(doc: &DocumentInfo) -> (r: Option<String>)
    ensures
        opt_view(r) == opt_view(doc.language),
{
    clone_opt(&doc.language)
}

/// Builds the heartbeat for a document: nothing when tracking is disabled or
/// the document has no file behind it. The entity is the file's path, or a
/// fixed sentinel when file names are hidden; the project is dropped when
/// project names are hidden.
pub fn heartbeat_for(
    doc: &DocumentInfo,
    is_write: bool,
    config: &WakaTimeConfig,
    inferred_project: Option<String>,
    time: Timestamp,
) -> (r: Option<WakaTimeEvent>)
    requires
        doc.wf(),
    ensures
        r is Some <==> is_tracked(*doc, *config),
        r matches Some(ev) ==> is_heartbeat_for(ev, *doc, is_write, *config, inferred_project, time),
{
    if !config.enabled {
        return None;
    }
    match &doc.path {
        None => None,
        Some(path) => {
            let entity = if config.hide_file_names {
                String::from_str("HIDDEN")
            } else {
                path.clone()
            };
            let project = if config.hide_project_names {
                None
            } else if config.project.is_some() {
                clone_opt(&config.project)
            } else {
                inferred_project
            };
            Some(
                WakaTimeEvent::Heartbeat {
                    entity,
                    type_: WakaTimeEntityType::File,
                    category: WakaTimeCategory::Coding,
                    time,
                    project,
                    language: get_language_name(doc),
                    is_write,
                    lines: Some(doc.lines),
                    lineno: Some(doc.cursor_line + 1),
                    cursorpos: Some(doc.cursor),
                },
            )
        },
    }
}

/// With file names hidden, a heartbeat never carries the file's path: its
/// entity is the fixed sentinel.
pub proof fn lemma_hidden_file_names(
    ev: WakaTimeEvent,
    doc: DocumentInfo,
    is_write: bool,
    config: WakaTimeConfig,
    inferred: Option<String>,
    time: Timestamp,
)
    requires
        config.hide_file_names,
        is_heartbeat_for(ev, doc, is_write, config, inferred, time),
    ensures
        ev->entity@ == "HIDDEN"@,
{
}

/// With file names hidden, the body of every request that delivers such a
/// heartbeat opens with the sentinel as its entity.
pub proof fn lemma_hidden_file_names_delivered(
    ev: WakaTimeEvent,
    doc: DocumentInfo,
    is_write: bool,
    config: WakaTimeConfig,
    inferred: Option<String>,
    time: Timestamp,
    snapshot: Option<WakaTimeConfig>,
    r: Dispatch,
)
    requires
        config.hide_file_names,
        is_heartbeat_for(ev, doc, is_write, config, inferred, time),
        planned(snapshot, ev, r),
        r is Deliver,
    ensures
        ({
            let head = "{\"entity\":"@ + json_quoted("HIDDEN"@);
            r->Deliver_0.body@.subrange(0, head.len() as int) == head
        }),
{
    let head = "{\"entity\":"@ + json_quoted("HIDDEN"@);
    let body = r->Deliver_0.body@;
    assert(ev->entity@ == "HIDDEN"@);
    assert(body.subrange(0, head.len() as int) =~= head);
}

/// With project names hidden, a heartbeat carries no project, even when one
/// was configured or inferred.
pub proof fn lemma_hidden_project_names(
    ev: WakaTimeEvent,
    doc: DocumentInfo,
    is_write: bool,
    config: WakaTimeConfig,
    inferred: Option<String>,
    time: Timestamp,
)
    requires
        config.hide_project_names,
        is_heartbeat_for(ev, doc, is_write, config, inferred, time),
    ensures
        ev->project is None,
{
}

/// A document without a file behind it yields no heartbeat, whatever the
/// configuration.
pub proof fn lemma_untitled_untracked(doc: DocumentInfo, config: WakaTimeConfig)
    requires
        doc.path is None,
    ensures
        !is_tracked(doc, config),
{
}

/// Relies on std::time::SystemTime::now, measured from the Unix epoch: the
/// time now. A clock set before the epoch reads as the epoch itself. The
/// fraction of a second is below one second.
#[verifier::external_body]
fn current_timestamp() -> (r: Timestamp)
    ensures
        r.wf(),
{
    let d = std::time::SystemTime::now().duration_since(std::time::UNIX_EPOCH).unwrap_or_default();
    Timestamp { secs: d.as_secs(), nanos: d.subsec_nanos() }
}

/// Makes the heartbeat for a document at the current time, inferring its
/// project from disk when the configuration neither names nor hides one.
/// Returns nothing exactly when the document is not tracked.
pub fn document_heartbeat(doc: &DocumentInfo, is_write: bool, config: &WakaTimeConfig) -> (r:
    Option<WakaTimeEvent>)
    requires
        doc.wf(),
    ensures
        r is Some <==> is_tracked(*doc, *config),
        r matches Some(ev) ==> exists|inferred: Option<String>, time: Timestamp|
            time.wf() && is_heartbeat_for(ev, *doc, is_write, *config, inferred, time),
{
    if !config.enabled {
        return None;
    }
    match &doc.path {
        None => None,
        Some(path) => {
            let inferred = if config.project.is_none() && !config.hide_project_names {
                get_project_name(path.as_str())
            } else {
                None
            };
            let time = current_timestamp();
            heartbeat_for(doc, is_write, config, inferred, time)
        },
    }
}

} // verus!
