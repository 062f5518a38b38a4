//! A sample configuration: an application with an HTTP server that reads two
//! header names and logs to stdout, to a file, or both.

use vstd::prelude::*;
use crate::finalize::{FinalConfig, Resolved};
use crate::partial::{NodeView, TreeView};
use crate::schema::{FieldKindView, FieldSpec, FieldSpecView, Schema, SchemaView};
use crate::value::{Value, ValueView};

verus! {

/// A sample configuration for an application.
#[derive(Debug, PartialEq, Eq)]
pub struct Conf {
    pub http: Http,
}

/// Configuring the HTTP server of the application.
#[derive(Debug, PartialEq, Eq)]
pub struct Http {
    pub headers: Headers,
    pub log: LogConfig,
}

/// The headers that a reverse proxy sets.
#[derive(Debug, PartialEq, Eq)]
pub struct Headers {
    /// The header in which the reverse proxy specifies the username.
    pub username: String,
    /// The header in which the reverse proxy specifies the display name.
    pub display_name: String,
}

/// Where the application logs.
#[derive(Debug, PartialEq, Eq)]
pub struct LogConfig {
    /// If set to `true`, the application logs to stdout.
    pub stdout: bool,
    /// If this is set, the application writes its logs to the file at this
    /// path.
    pub file: Option<String>,
}

/// The mathematical content of a [`Headers`].
pub struct HeadersView {
    pub username: Seq<char>,
    pub display_name: Seq<char>,
}

/// The mathematical content of a [`LogConfig`].
pub struct LogConfigView {
    pub stdout: bool,
    pub file: Option<Seq<char>>,
}

/// The mathematical content of an [`Http`].
pub struct HttpView {
    pub headers: HeadersView,
    pub log: LogConfigView,
}

/// The mathematical content of a [`Conf`].
pub struct ConfView {
    pub http: HttpView,
}

impl View for Headers {
    type V = HeadersView;

    open spec fn view(&self) -> HeadersView {
        HeadersView { username: self.username@, display_name: self.display_name@ }
    }
}

impl View for LogConfig {
    type V = LogConfigView;

    open spec fn view(&self) -> LogConfigView {
        LogConfigView {
            stdout: self.stdout,
            file: match self.file {
                Some(path) => Some(path@),
                None => None,
            },
        }
    }
}

impl View for Http {
    type V = HttpView;

    open spec fn view(&self) -> HttpView {
        HttpView { headers: self.headers@, log: self.log@ }
    }
}

impl View for Conf {
    type V = ConfView;

    open spec fn view(&self) -> ConfView {
        ConfView { http: self.http@ }
    }
}

/// A required leaf with a text default.
pub open spec fn text_leaf(name: Seq<char>, default: Seq<char>) -> FieldSpecView {
    FieldSpecView {
        name,
        kind: FieldKindView::Leaf { default: Some(ValueView::Text(default)) },
        optional: false,
    }
}

/// A required nested field.
pub open spec fn nested_field(name: Seq<char>, schema: SchemaView) -> FieldSpecView {
    FieldSpecView { name, kind: FieldKindView::Nested { schema }, optional: false }
}

impl HeadersView {
    /// The schema: two required text leaves with defaults.
    pub open spec fn schema() -> SchemaView {
        SchemaView {
            name: "Headers"@,
            fields: seq![
                text_leaf("username"@, "x-username"@),
                text_leaf("display_name"@, "x-display-name"@),
            ],
        }
    }

    /// The headers that a resolved tree holds, where it has their shape.
    pub open spec fn from_tree(tree: TreeView) -> Option<HeadersView> {
        if tree.fields.len() != 2 {
            None
        } else {
            match (tree.node_named(0, "username"@), tree.node_named(1, "display_name"@)) {
                (
                    Some(NodeView::Leaf(ValueView::Text(username))),
                    Some(NodeView::Leaf(ValueView::Text(display_name))),
                ) => Some(HeadersView { username, display_name }),
                _ => None,
            }
        }
    }
}

impl LogConfigView {
    /// The schema: `stdout`, true by default, and the optional `file`.
    pub open spec fn schema() -> SchemaView {
        SchemaView {
            name: "LogConfig"@,
            fields: seq![
                FieldSpecView {
                    name: "stdout"@,
                    kind: FieldKindView::Leaf { default: Some(ValueView::Boolean(true)) },
                    optional: false,
                },
                FieldSpecView {
                    name: "file"@,
                    kind: FieldKindView::Leaf { default: None },
                    optional: true,
                },
            ],
        }
    }

    /// The log configuration that a resolved tree holds, where it has its
    /// shape.
    pub open spec fn from_tree(tree: TreeView) -> Option<LogConfigView> {
        if tree.fields.len() != 2 {
            None
        } else {
            match (tree.node_named(0, "stdout"@), tree.node_named(1, "file"@)) {
                (
                    Some(NodeView::Leaf(ValueView::Boolean(stdout))),
                    Some(NodeView::Leaf(ValueView::Text(path))),
                ) => Some(LogConfigView { stdout, file: Some(path) }),
                (Some(NodeView::Leaf(ValueView::Boolean(stdout))), Some(NodeView::Absent)) => Some(
                    LogConfigView { stdout, file: None },
                ),
                _ => None,
            }
        }
    }
}

impl HttpView {
    /// The schema: the nested `headers` and `log`.
    pub open spec fn schema() -> SchemaView {
        SchemaView {
            name: "Http"@,
            fields: seq![
                nested_field("headers"@, HeadersView::schema()),
                nested_field("log"@, LogConfigView::schema()),
            ],
        }
    }

    /// The HTTP configuration that a resolved tree holds, where it has its
    /// shape.
    pub open spec fn from_tree(tree: TreeView) -> Option<HttpView> {
        if tree.fields.len() != 2 {
            None
        } else {
            match (tree.node_named(0, "headers"@), tree.node_named(1, "log"@)) {
                (Some(NodeView::Nested(headers)), Some(NodeView::Nested(log))) => match (
                    HeadersView::from_tree(headers),
                    LogConfigView::from_tree(log),
                ) {
                    (Some(headers), Some(log)) => Some(HttpView { headers, log }),
                    _ => None,
                },
                _ => None,
            }
        }
    }
}

impl ConfView {
    /// The schema: the nested `http`.
    pub open spec fn schema() -> SchemaView {
        SchemaView { name: "Conf"@, fields: seq![nested_field("http"@, HttpView::schema())] }
    }

    /// The configuration that a resolved tree holds, where it has its shape.
    pub open spec fn from_tree(tree: TreeView) -> Option<ConfView> {
        if tree.fields.len() != 1 {
            None
        } else {
            match tree.node_named(0, "http"@) {
                Some(NodeView::Nested(http)) => match HttpView::from_tree(http) {
                    Some(http) => Some(ConfView { http }),
                    None => None,
                },
                _ => None,
            }
        }
    }
}

impl Headers {
    /// The schema of the headers.
    pub fn schema() -> (r: Schema)
        ensures
            r@ == HeadersView::schema(),
            r@.well_formed(),
    {
        let mut schema = Schema::new("Headers");
        schema.push(
            FieldSpec::leaf("username", Some(Value::Text("x-username".to_owned())), false),
        );
        proof {
            reveal_strlit("username");
            reveal_strlit("display_name");
            assert("username"@.len() != "display_name"@.len());
        }
        schema.push(
            FieldSpec::leaf("display_name", Some(Value::Text("x-display-name".to_owned())), false),
        );
        assert(schema@.fields =~= HeadersView::schema().fields);
        schema
    }

    /// Reads the headers from a resolved configuration of their schema.
    pub fn from_config(cfg: &FinalConfig) -> (r: Option<Headers>)
        ensures
            match r {
                Some(headers) => HeadersView::from_tree(cfg@) == Some(headers@),
                None => HeadersView::from_tree(cfg@) is None,
            },
    {
        if cfg.fields.len() != 2 {
            return None;
        }
        match (cfg.field(0, "username"), cfg.field(1, "display_name")) {
            (
                Some(Resolved::Leaf(Value::Text(username))),
                Some(Resolved::Leaf(Value::Text(display_name))),
            ) => Some(Headers { username: username.clone(), display_name: display_name.clone() }),
            _ => None,
        }
    }
}

impl LogConfig {
    /// The schema of the log configuration.
    pub fn schema() -> (r: Schema)
        ensures
            r@ == LogConfigView::schema(),
            r@.well_formed(),
    {
        let mut schema = Schema::new("LogConfig");
        schema.push(FieldSpec::leaf("stdout", Some(Value::Boolean(true)), false));
        proof {
            reveal_strlit("stdout");
            reveal_strlit("file");
            assert("stdout"@.len() != "file"@.len());
        }
        schema.push(FieldSpec::leaf("file", None, true));
        assert(schema@.fields =~= LogConfigView::schema().fields);
        schema
    }

    /// Reads the log configuration from a resolved configuration of its
    /// schema.
    pub fn from_config(cfg: &FinalConfig) -> (r: Option<LogConfig>)
        ensures
            match r {
                Some(log) => LogConfigView::from_tree(cfg@) == Some(log@),
                None => LogConfigView::from_tree(cfg@) is None,
            },
    {
        if cfg.fields.len() != 2 {
            return None;
        }
        match (cfg.field(0, "stdout"), cfg.field(1, "file")) {
            (
                Some(Resolved::Leaf(Value::Boolean(stdout))),
                Some(Resolved::Leaf(Value::Text(path))),
            ) => Some(LogConfig { stdout: *stdout, file: Some(path.clone()) }),
            (Some(Resolved::Leaf(Value::Boolean(stdout))), Some(Resolved::Absent)) => Some(
                LogConfig { stdout: *stdout, file: None },
            ),
            _ => None,
        }
    }
}

impl Http {
    /// The schema of the HTTP configuration.
    pub fn schema() -> (r: Schema)
        ensures
            r@ == HttpView::schema(),
            r@.well_formed(),
    {
        let mut schema = Schema::new("Http");
        schema.push(FieldSpec::nested("headers", Headers::schema(), false));
        proof {
            reveal_strlit("headers");
            reveal_strlit("log");
            assert("headers"@.len() != "log"@.len());
        }
        schema.push(FieldSpec::nested("log", LogConfig::schema(), false));
        assert(schema@.fields =~= HttpView::schema().fields);
        schema
    }

    /// Reads the HTTP configuration from a resolved configuration of its
    /// schema.
    pub fn from_config(cfg: &FinalConfig) -> (r: Option<Http>)
        ensures
            match r {
                Some(http) => HttpView::from_tree(cfg@) == Some(http@),
                None => HttpView::from_tree(cfg@) is None,
            },
    {
        if cfg.fields.len() != 2 {
            return None;
        }
        match (cfg.field(0, "headers"), cfg.field(1, "log")) {
            (Some(Resolved::Nested(headers)), Some(Resolved::Nested(log))) => {
                match (Headers::from_config(headers), LogConfig::from_config(log)) {
                    (Some(headers), Some(log)) => Some(Http { headers, log }),
                    _ => None,
                }
            },
            _ => None,
        }
    }
}

impl Conf {
    /// The schema of the sample configuration.
    pub fn schema() -> (r: Schema)
        ensures
            r@ == ConfView::schema(),
            r@.well_formed(),
    {
        let mut schema = Schema::new("Conf");
        schema.push(FieldSpec::nested("http", Http::schema(), false));
        schema
    }

    /// Reads the sample configuration from a resolved configuration of its
    /// schema.
    pub fn from_config(cfg: &FinalConfig) -> (r: Option<Conf>)
        ensures
            match r {
                Some(conf) => ConfView::from_tree(cfg@) == Some(conf@),
                None => ConfView::from_tree(cfg@) is None,
            },
    {
        if cfg.fields.len() != 1 {
            return None;
        }
        match cfg.field(0, "http") {
            Some(Resolved::Nested(http)) => match Http::from_config(http) {
                Some(http) => Some(Conf { http }),
                None => None,
            },
            _ => None,
        }
    }
}

} // verus!
