//! The edits that register custom models and the default model in the user
//! configuration, on the TOML tree of `config.toml`.
//!
//! These functions decide what the tree becomes; `config_text` applies them
//! to the text of the file, and reading and writing the file is the
//! caller's.

use vstd::prelude::*;

use crate::config::table::{
    entries_wf, table_insert_if_absent, table_map, table_set, table_take, value_wf, ConfigEntry,
    ConfigValue,
};
use crate::text::{str_equal, to_string, trim, trim_view};

verus! {

/// Why a header given as `Key: Value` or `Key=Value` was refused.
#[derive(Debug, Clone, Copy, PartialEq, Eq)]
pub enum HeaderError {
    /// Neither `:` nor `=` occurs.
    MissingSeparator,
    /// The key or the value is empty.
    EmptyPart,
}

impl HeaderError {
    /// The message reported to the user.
    pub fn message(&self) -> (r: &'static str)
        ensures
            r@ == (match *self {
                HeaderError::MissingSeparator => "header must be in 'Key: Value' or 'Key=Value' form"@,
                HeaderError::EmptyPart => "header key and value must be non-empty"@,
            }),
    {
        match self {
            HeaderError::MissingSeparator => "header must be in 'Key: Value' or 'Key=Value' form",
            HeaderError::EmptyPart => "header key and value must be non-empty",
        }
    }
}

/// The two characters that separate a header's key from its value.
pub open spec fn is_separator(c: char) -> bool {
    c == ':' || c == '='
}

/// `i` is the position of the first separator in `t`.
pub open spec fn is_first_separator(t: Seq<char>, i: int) -> bool {
    0 <= i < t.len() && is_separator(t[i]) && forall|k: int| 0 <= k < i ==> !is_separator(#[trigger] t[k])
}

/// `s` without its leading `:` and `=` characters.
pub open spec fn trim_separators_view(s: Seq<char>) -> Seq<char>
    decreases s.len(),
{
    if s.len() > 0 && (s[0] == ':' || s[0] == '=') {
        trim_separators_view(s.drop_first())
    } else {
        s
    }
}

/// Where a header splits: at its first separator, whichever of `:` and
/// `=` it is; -1 when it has none.
pub open spec fn header_split(t: Seq<char>) -> int {
    if exists|i: int| is_first_separator(t, i) {
        choose|i: int| is_first_separator(t, i)
    } else {
        -1
    }
}

/// The key and value of a header given as `Key: Value` or `Key=Value`: the
/// text is trimmed and split at its first `:` or `=`, whichever comes first;
/// the key is the trimmed text before it, the value the trimmed text after it and after any further
/// `:` and `=` characters; both must be non-empty.
pub open spec fn parse_header_view(s: Seq<char>) -> Result<(Seq<char>, Seq<char>), HeaderError> {
    let t = trim_view(s);
    let i = header_split(t);
    if i < 0 {
        Err(HeaderError::MissingSeparator)
    } else {
        let k = trim_view(t.take(i));
        let v = trim_view(trim_separators_view(t.skip(i + 1)));
        if k.len() == 0 || v.len() == 0 {
            Err(HeaderError::EmptyPart)
        } else {
            Ok((k, v))
        }
    }
}

proof fn lemma_first_separator_unique(t: Seq<char>, i: int)
    requires
        is_first_separator(t, i),
    ensures
        header_split(t) == i,
{
    let j = choose|j: int| is_first_separator(t, j);
    assert(is_first_separator(t, j));
    if j < i {
        assert(!is_separator(t[j]));
    }
    if i < j {
        assert(!is_separator(t[i]));
    }
}

/// The position of the first `:` or `=` in `t`.
fn find_separator(t: &str) -> (r: Option<usize>)
    ensures
        match r {
            Some(i) => header_split(t@) == i as int,
            None => header_split(t@) == -1,
        },
{
    let n = t.unicode_len();
    let mut i: usize = 0;
    while i < n
        invariant
            n == t@.len(),
            i <= n,
            forall|k: int| 0 <= k < i ==> !is_separator(#[trigger] t@[k]),
        decreases n - i,
    {
        let c = t.get_char(i);
        if c == ':' || c == '=' {
            proof {
                lemma_first_separator_unique(t@, i as int);
            }
            return Some(i);
        }
        i = i + 1;
    }
    assert(!exists|i: int| is_first_separator(t@, i));
    None
}

fn trim_separators(s: &str) -> (r: &str)
    ensures
        r@ == trim_separators_view(s@),
{
    let n = s.unicode_len();
    let mut i: usize = 0;
    assert(s@.skip(0) =~= s@);
    while i < n && (s.get_char(i) == ':' || s.get_char(i) == '=')
        invariant
            n == s@.len(),
            i <= n,
            trim_separators_view(s@) == trim_separators_view(s@.skip(i as int)),
        decreases n - i,
    {
        assert(s@.skip(i as int).drop_first() =~= s@.skip(i + 1));
        i = i + 1;
    }
    let r = s.substring_char(i, n);
    assert(r@ =~= s@.skip(i as int));
    r
}

/// Parses a header given as `Key: Value` or `Key=Value`.
pub fn parse_header(s: &str) -> (r: Result<(String, String), HeaderError>)
    ensures
        match r {
            Ok((k, v)) => parse_header_view(s@) == Ok::<(Seq<char>, Seq<char>), HeaderError>(
                (k@, v@),
            ),
            Err(e) => parse_header_view(s@) == Err::<(Seq<char>, Seq<char>), HeaderError>(e),
        },
{
    let t = trim(s);
    let n = t.unicode_len();
    let split = match find_separator(t) {
        Some(i) => i,
        None => {
            return Err(HeaderError::MissingSeparator);
        },
    };
    let key = trim(t.substring_char(0, split));
    let rest = t.substring_char(split + 1, n);
    let value = trim(trim_separators(rest));
    proof {
        assert(t@.take(split as int) =~= t@.subrange(0, split as int));
        assert(t@.skip(split + 1) =~= t@.subrange(split + 1, n as int));
    }
    if key.is_empty() || value.is_empty() {
        return Err(HeaderError::EmptyPart);
    }
    Ok((to_string(key), to_string(value)))
}

/// Why a configuration edit was refused; the tree is left as it was.
#[derive(Debug, Clone, PartialEq, Eq)]
pub enum ConfigError {
    /// The document root is not a table.
    RootNotTable,
    /// `[model]` exists but is not a table.
    ModelSectionNotTable,
    /// `[models]` exists but is not a table.
    ModelsSectionNotTable,
    /// An extra header could not be parsed; holds the header as given.
    InvalidHeader(String),
}

/// The text of a [`ConfigError`].
pub open spec fn config_error_message(e: ConfigError) -> Seq<char> {
    match e {
        ConfigError::RootNotTable => "config root is not a table"@,
        ConfigError::ModelSectionNotTable => "[model] section in config is not a table"@,
        ConfigError::ModelsSectionNotTable => "[models] section in config is not a table"@,
        ConfigError::InvalidHeader(h) => "invalid header format: "@ + h@,
    }
}

impl ConfigError {
    /// The message reported to the user.
    pub fn message(&self) -> (r: String)
        ensures
            r@ == config_error_message(*self),
    {
        match self {
            ConfigError::RootNotTable => to_string("config root is not a table"),
            ConfigError::ModelSectionNotTable => to_string("[model] section in config is not a table"),
            ConfigError::ModelsSectionNotTable => to_string("[models] section in config is not a table"),
            ConfigError::InvalidHeader(h) => {
                let mut r = to_string("invalid header format: ");
                r.append(h.as_str());
                r
            },
        }
    }
}

/// The meaning of a table value (empty for any other value).
pub open spec fn value_map(v: ConfigValue) -> Map<Seq<char>, ConfigValue> {
    match v {
        ConfigValue::Table(es) => table_map(es@),
        _ => Map::empty(),
    }
}

/// The table stored under `key`; empty when there is none or the value is
/// not a table.
pub open spec fn sub_table(m: Map<Seq<char>, ConfigValue>, key: Seq<char>) -> Map<Seq<char>, ConfigValue> {
    if m.contains_key(key) {
        value_map(m[key])
    } else {
        Map::empty()
    }
}

/// Whether `key` holds something other than a table.
pub open spec fn holds_non_table(m: Map<Seq<char>, ConfigValue>, key: Seq<char>) -> bool {
    m.contains_key(key) && !(m[key] is Table)
}

/// `new` is `old` with `key` set to a table whose meaning is `sub`; every
/// other entry is kept as it was.
pub open spec fn sets_sub_table(
    old: Map<Seq<char>, ConfigValue>,
    new: Map<Seq<char>, ConfigValue>,
    key: Seq<char>,
    sub: Map<Seq<char>, ConfigValue>,
) -> bool {
    &&& new.dom() == old.dom().insert(key)
    &&& forall|k: Seq<char>| k != key && #[trigger] old.contains_key(k) ==> new[k] == old[k]
    &&& new[key] is Table
    &&& value_map(new[key]) == sub
}

/// Swaps the root's entries out of the tree, leaving an empty table.
fn take_root(root: &mut ConfigValue) -> (r: Option<Vec<ConfigEntry>>)
    requires
        value_wf(*old(root)),
    ensures
        match r {
            Some(es) => *old(root) == ConfigValue::Table(es) && entries_wf(es@),
            None => !(*old(root) is Table) && *final(root) == *old(root),
        },
{
    if matches!(root, ConfigValue::Table(_)) {
        let mut tmp = ConfigValue::Table(Vec::new());
        std::mem::swap(root, &mut tmp);
        match tmp {
            ConfigValue::Table(es) => Some(es),
            _ => None,
        }
    } else {
        None
    }
}

/// Takes the table under `key` out of `entries`: the empty table when the
/// key is absent. When the key holds another value it is left in place and
/// `None` is returned.
fn take_sub_table(entries: &mut Vec<ConfigEntry>, key: &str) -> (r: Option<Vec<ConfigEntry>>)
    requires
        entries_wf(old(entries)@),
    ensures
        entries_wf(final(entries)@),
        match r {
            Some(sub) => {
                &&& entries_wf(sub@)
                &&& table_map(final(entries)@) == table_map(old(entries)@).remove(key@)
                &&& table_map(sub@) == sub_table(table_map(old(entries)@), key@)
                &&& !holds_non_table(table_map(old(entries)@), key@)
            },
            None => {
                &&& table_map(final(entries)@) == table_map(old(entries)@)
                &&& holds_non_table(table_map(old(entries)@), key@)
            },
        },
{
    let ghost before = table_map(entries@);
    match table_take(entries, key) {
        None => {
            let sub: Vec<ConfigEntry> = Vec::new();
            assert(table_map(sub@) =~= Map::<Seq<char>, ConfigValue>::empty());
            Some(sub)
        },
        Some(ConfigValue::Table(sub)) => Some(sub),
        Some(other) => {
            table_set(entries, to_string(key), other);
            assert(before.remove(key@).insert(key@, other) =~= before);
            None
        },
    }
}

/// Whether `key` holds something other than a table.
fn has_non_table(entries: &Vec<ConfigEntry>, key: &str) -> (r: bool)
    requires
        entries_wf(entries@),
    ensures
        r == holds_non_table(table_map(entries@), key@),
{
    proof {
        crate::config::table::lemma_table_map(entries@);
    }
    match crate::config::table::find_key(entries, key) {
        Some(i) => !matches!(entries[i].value, ConfigValue::Table(_)),
        None => false,
    }
}

/// Setting `[models].default` to `model` in the tree `r0` gives the tree
/// `r1` and the answer `res`: a root that is not a table, or a `[models]`
/// that is not a table, is refused and nothing changes; otherwise
/// `[models].default` is `model` and every other entry is kept.
pub open spec fn models_default_set(
    r0: ConfigValue,
    r1: ConfigValue,
    res: Result<(), ConfigError>,
    model: String,
) -> bool {
    &&& value_wf(r1)
    &&& !(r0 is Table) ==> res == Err::<(), ConfigError>(ConfigError::RootNotTable) && r1 == r0
    &&& r0 is Table && holds_non_table(value_map(r0), "models"@) ==> res == Err::<(), ConfigError>(
        ConfigError::ModelsSectionNotTable,
    ) && r1 == r0
    &&& r0 is Table && !holds_non_table(value_map(r0), "models"@) ==> {
        &&& res is Ok
        &&& r1 is Table
        &&& sets_sub_table(
            value_map(r0),
            value_map(r1),
            "models"@,
            sub_table(value_map(r0), "models"@).insert("default"@, ConfigValue::Text(model)),
        )
    }
}

/// Sets `[models].default` to `model`, creating the `[models]` table when it
/// is missing.
pub fn set_models_default(root: &mut ConfigValue, model: String) -> (r: Result<(), ConfigError>)
    requires
        value_wf(*old(root)),
    ensures
        models_default_set(*old(root), *final(root), r, model),
{
    let ghost old_root = *root;
    let mut es = match take_root(root) {
        Some(es) => es,
        None => {
            return Err(ConfigError::RootNotTable);
        },
    };
    let ghost r0 = table_map(es@);
    if has_non_table(&es, "models") {
        *root = ConfigValue::Table(es);
        return Err(ConfigError::ModelsSectionNotTable);
    }
    let mut models = match take_sub_table(&mut es, "models") {
        Some(m) => m,
        None => {
            *root = ConfigValue::Table(es);
            return Err(ConfigError::ModelsSectionNotTable);
        },
    };
    let ghost m0 = table_map(models@);
    let ghost model_view = ConfigValue::Text(model);
    table_set(&mut models, to_string("default"), ConfigValue::Text(model));
    let ghost m1 = table_map(models@);
    let ghost models_value = ConfigValue::Table(models);
    table_set(&mut es, to_string("models"), ConfigValue::Table(models));
    proof {
        let r1 = table_map(es@);
        assert(r1 == r0.remove("models"@).insert("models"@, models_value));
        assert(r1.dom() =~= r0.dom().insert("models"@));
    }
    *root = ConfigValue::Table(es);
    Ok(())
}

/// The abstract value of a list of strings.
pub open spec fn texts_view(v: Seq<String>) -> Seq<Seq<char>> {
    v.map_values(|s: String| s@)
}

/// `i` is the first header that does not parse.
pub open spec fn is_first_bad_header(hs: Seq<Seq<char>>, i: int) -> bool {
    &&& 0 <= i < hs.len()
    &&& parse_header_view(hs[i]) is Err
    &&& forall|k: int| 0 <= k < i ==> #[trigger] parse_header_view(hs[k]) is Ok
}

/// Every header parses.
pub open spec fn headers_ok(hs: Seq<Seq<char>>) -> bool {
    forall|k: int| 0 <= k < hs.len() ==> #[trigger] parse_header_view(hs[k]) is Ok
}

/// The headers as a table from key to value; a later header with the same
/// key replaces an earlier one.
pub open spec fn headers_map_view(hs: Seq<Seq<char>>) -> Map<Seq<char>, Seq<char>>
    decreases hs.len(),
{
    if hs.len() == 0 {
        Map::empty()
    } else {
        match parse_header_view(hs.last()) {
            Ok((k, v)) => headers_map_view(hs.drop_last()).insert(k, v),
            Err(_) => headers_map_view(hs.drop_last()),
        }
    }
}

/// Whether every value of the table is a string.
pub open spec fn only_texts(m: Map<Seq<char>, ConfigValue>) -> bool {
    forall|k: Seq<char>| #[trigger] m.contains_key(k) ==> m[k] is Text
}

/// The strings of a table of strings.
pub open spec fn text_map(m: Map<Seq<char>, ConfigValue>) -> Map<Seq<char>, Seq<char>> {
    Map::new(|k: Seq<char>| m.contains_key(k) && m[k] is Text, |k: Seq<char>| m[k]->Text_0@)
}

/// Adds `key = value` when a value is given.
pub open spec fn with_optional(
    m: Map<Seq<char>, ConfigValue>,
    key: Seq<char>,
    value: Option<String>,
) -> Map<Seq<char>, ConfigValue> {
    match value {
        Some(v) => m.insert(key, ConfigValue::Text(v)),
        None => m,
    }
}

/// The fields of a `[model.<name>]` entry other than its extra headers:
/// `model`, `base_url` and `context_window` always, and `name`, `api_key`,
/// `env_key`, `api_backend` and `auth_scheme` when given.
pub open spec fn model_fields_view(
    model: String,
    base_url: String,
    api_key: Option<String>,
    env_key: Option<String>,
    display_name: Option<String>,
    context_window: u64,
    api_backend: Option<String>,
    auth_scheme: Option<String>,
) -> Map<Seq<char>, ConfigValue> {
    let m = Map::empty().insert("model"@, ConfigValue::Text(model)).insert(
        "base_url"@,
        ConfigValue::Text(base_url),
    ).insert("context_window"@, ConfigValue::Integer(#[verifier::truncate] (context_window as i64)));
    with_optional(
        with_optional(
            with_optional(
                with_optional(with_optional(m, "name"@, display_name), "api_key"@, api_key),
                "env_key"@,
                env_key,
            ),
            "api_backend"@,
            api_backend,
        ),
        "auth_scheme"@,
        auth_scheme,
    )
}

fn set_optional(fields: &mut Vec<ConfigEntry>, key: &str, value: Option<String>)
    requires
        entries_wf(old(fields)@),
    ensures
        entries_wf(final(fields)@),
        table_map(final(fields)@) == with_optional(table_map(old(fields)@), key@, value),
{
    match value {
        Some(v) => {
            table_set(fields, to_string(key), ConfigValue::Text(v));
        },
        None => {},
    }
}

/// Parses every header into a table; the first header that does not parse
/// is reported by its position.
fn parse_headers(extra_headers: &Vec<String>) -> (r: Result<Vec<ConfigEntry>, usize>)
    ensures
        match r {
            Ok(h) => {
                &&& headers_ok(texts_view(extra_headers@))
                &&& entries_wf(h@)
                &&& only_texts(table_map(h@))
                &&& text_map(table_map(h@)) == headers_map_view(texts_view(extra_headers@))
            },
            Err(i) => is_first_bad_header(texts_view(extra_headers@), i as int),
        },
{
    let ghost hs = texts_view(extra_headers@);
    let n = extra_headers.len();
    let mut headers: Vec<ConfigEntry> = Vec::new();
    let mut i: usize = 0;
    assert(hs.take(0) =~= Seq::<Seq<char>>::empty());
    assert(text_map(table_map(headers@)) =~= Map::<Seq<char>, Seq<char>>::empty());
    while i < n
        invariant
            hs == texts_view(extra_headers@),
            n == hs.len(),
            i <= n,
            entries_wf(headers@),
            only_texts(table_map(headers@)),
            forall|k: int| 0 <= k < i ==> #[trigger] parse_header_view(hs[k]) is Ok,
            text_map(table_map(headers@)) == headers_map_view(hs.take(i as int)),
        decreases n - i,
    {
        assert(hs.take(i + 1).drop_last() =~= hs.take(i as int));
        assert(hs.take(i + 1).last() == extra_headers@[i as int]@);
        match parse_header(extra_headers[i].as_str()) {
            Ok((k, v)) => {
                let ghost before = table_map(headers@);
                let ghost kv = k@;
                let ghost vv = v@;
                table_set(&mut headers, k, ConfigValue::Text(v));
                proof {
                    let after = table_map(headers@);
                    assert(after == before.insert(kv, ConfigValue::Text(v)));
                    assert(text_map(after) =~= text_map(before).insert(kv, vv));
                }
            },
            Err(_) => {
                return Err(i);
            },
        }
        i = i + 1;
    }
    assert(hs.take(n as int) =~= hs);
    Ok(headers)
}

/// Adding the model `name` to the tree `r0` gives the tree `r1` and the
/// answer `res`: a root that is not a table, a header that does not parse
/// (the first one is reported) or a `[model]` that is not a table is refused
/// and nothing changes; otherwise `[model.<name>]` holds exactly the given
/// fields and the headers, and every other entry is kept.
pub open spec fn model_added(
    r0: ConfigValue,
    r1: ConfigValue,
    res: Result<(), ConfigError>,
    name: String,
    model: String,
    base_url: String,
    api_key: Option<String>,
    env_key: Option<String>,
    display_name: Option<String>,
    context_window: u64,
    api_backend: Option<String>,
    auth_scheme: Option<String>,
    extra_headers: Seq<String>,
) -> bool {
    &&& value_wf(r1)
    &&& !(r0 is Table) ==> res == Err::<(), ConfigError>(ConfigError::RootNotTable) && r1 == r0
    &&& r0 is Table && !headers_ok(texts_view(extra_headers)) ==> exists|i: int|
        is_first_bad_header(texts_view(extra_headers), i) && res == Err::<(), ConfigError>(
            ConfigError::InvalidHeader(extra_headers[i]),
        ) && r1 == r0
    &&& r0 is Table && headers_ok(texts_view(extra_headers)) && holds_non_table(
        value_map(r0),
        "model"@,
    ) ==> res == Err::<(), ConfigError>(ConfigError::ModelSectionNotTable) && r1 == r0
    &&& r0 is Table && headers_ok(texts_view(extra_headers)) && !holds_non_table(
        value_map(r0),
        "model"@,
    ) ==> {
        let models = value_map(value_map(r1)["model"@]);
        let fields = value_map(models[name@]);
        &&& res is Ok
        &&& r1 is Table
        &&& sets_sub_table(value_map(r0), value_map(r1), "model"@, models)
        &&& sets_sub_table(sub_table(value_map(r0), "model"@), models, name@, fields)
        &&& fields.remove("extra_headers"@) == model_fields_view(
            model,
            base_url,
            api_key,
            env_key,
            display_name,
            context_window,
            api_backend,
            auth_scheme,
        )
        &&& extra_headers.len() == 0 ==> !fields.contains_key("extra_headers"@)
        &&& extra_headers.len() > 0 ==> {
            &&& fields.contains_key("extra_headers"@)
            &&& fields["extra_headers"@] is Table
            &&& only_texts(value_map(fields["extra_headers"@]))
            &&& text_map(value_map(fields["extra_headers"@])) == headers_map_view(
                texts_view(extra_headers),
            )
        }
    }
}

/// Adds or replaces the `[model.<name>]` entry: a fresh table with the given
/// fields (see [`model_fields_view`]) and, when headers are given, an
/// `extra_headers` table of them. The root must be a table, every header
/// must parse, and `[model]`, when present, must be a table; otherwise the
/// tree is left as it was.
pub fn add_model_to_config(
    root: &mut ConfigValue,
    name: String,
    model: String,
    base_url: String,
    api_key: Option<String>,
    env_key: Option<String>,
    display_name: Option<String>,
    context_window: u64,
    api_backend: Option<String>,
    auth_scheme: Option<String>,
    extra_headers: Vec<String>,
) -> (r: Result<(), ConfigError>)
    requires
        value_wf(*old(root)),
    ensures
        model_added(
            *old(root),
            *final(root),
            r,
            name,
            model,
            base_url,
            api_key,
            env_key,
            display_name,
            context_window,
            api_backend,
            auth_scheme,
            extra_headers@,
        ),
{
    let mut es = match take_root(root) {
        Some(es) => es,
        None => {
            return Err(ConfigError::RootNotTable);
        },
    };
    let ghost r0 = table_map(es@);
    let headers = match parse_headers(&extra_headers) {
        Ok(h) => h,
        Err(i) => {
            *root = ConfigValue::Table(es);
            let mut given = extra_headers;
            let h = given.remove(i);
            return Err(ConfigError::InvalidHeader(h));
        },
    };
    if has_non_table(&es, "model") {
        *root = ConfigValue::Table(es);
        return Err(ConfigError::ModelSectionNotTable);
    }
    let ghost m_model = model;
    let ghost m_base_url = base_url;
    let ghost m_api_key = api_key;
    let ghost m_env_key = env_key;
    let ghost m_display_name = display_name;
    let ghost m_api_backend = api_backend;
    let ghost m_auth_scheme = auth_scheme;
    let mut fields: Vec<ConfigEntry> = Vec::new();
    table_set(&mut fields, to_string("model"), ConfigValue::Text(model));
    table_set(&mut fields, to_string("base_url"), ConfigValue::Text(base_url));
    table_set(&mut fields, to_string("context_window"), ConfigValue::Integer(#[verifier::truncate] (context_window as i64)));
    set_optional(&mut fields, "name", display_name);
    set_optional(&mut fields, "api_key", api_key);
    set_optional(&mut fields, "env_key", env_key);
    set_optional(&mut fields, "api_backend", api_backend);
    set_optional(&mut fields, "auth_scheme", auth_scheme);
    let ghost base_fields = table_map(fields@);
    proof {
        reveal_strlit("extra_headers");
        reveal_strlit("model");
        reveal_strlit("base_url");
        reveal_strlit("context_window");
        reveal_strlit("name");
        reveal_strlit("api_key");
        reveal_strlit("env_key");
        reveal_strlit("api_backend");
        reveal_strlit("auth_scheme");
        assert(table_map(Seq::<ConfigEntry>::empty()) =~= Map::<Seq<char>, ConfigValue>::empty());
        assert(base_fields == model_fields_view(
            m_model,
            m_base_url,
            m_api_key,
            m_env_key,
            m_display_name,
            context_window,
            m_api_backend,
            m_auth_scheme,
        ));
        let eh = "extra_headers"@;
        assert(eh.len() == 13);
        assert(eh != "model"@ && eh != "base_url"@ && eh != "context_window"@ && eh != "name"@);
        assert(eh != "api_key"@ && eh != "env_key"@ && eh != "api_backend"@ && eh != "auth_scheme"@);
        assert(!base_fields.contains_key("extra_headers"@));
    }
    if extra_headers.len() > 0 {
        let ghost hv = ConfigValue::Table(headers);
        table_set(&mut fields, to_string("extra_headers"), ConfigValue::Table(headers));
        proof {
            assert(table_map(fields@).remove("extra_headers"@) =~= base_fields);
        }
    } else {
        proof {
            assert(table_map(fields@).remove("extra_headers"@) =~= base_fields);
        }
    }
    let ghost fields_value = ConfigValue::Table(fields);
    let ghost fmap = table_map(fields@);
    let mut models = match take_sub_table(&mut es, "model") {
        Some(m) => m,
        None => {
            *root = ConfigValue::Table(es);
            return Err(ConfigError::ModelSectionNotTable);
        },
    };
    let ghost m0 = table_map(models@);
    table_set(&mut models, name, ConfigValue::Table(fields));
    let ghost m1 = table_map(models@);
    let ghost models_value = ConfigValue::Table(models);
    table_set(&mut es, to_string("model"), ConfigValue::Table(models));
    proof {
        let r1 = table_map(es@);
        assert(r1 == r0.remove("model"@).insert("model"@, models_value));
        assert(r1.dom() =~= r0.dom().insert("model"@));
        assert(m1 == m0.insert(name@, fields_value));
        assert(m1.dom() =~= m0.dom().insert(name@));
        assert(value_map(r1["model"@]) == m1);
        assert(value_map(m1[name@]) == fmap);
    }
    *root = ConfigValue::Table(es);
    Ok(())
}

/// A literal `"model.<name>"` key holding a table, as an earlier version
/// wrote custom models.
pub open spec fn is_legacy_entry(r: Map<Seq<char>, ConfigValue>, k: Seq<char>) -> bool {
    &&& r.contains_key(k)
    &&& k.len() >= 6
    &&& k.take(6) == "model."@
    &&& r[k] is Table
}

/// The root entries that an upsert keeps as they are: all but `model` and
/// the legacy keys.
pub open spec fn kept_root(r: Map<Seq<char>, ConfigValue>) -> Map<Seq<char>, ConfigValue> {
    Map::new(
        |k: Seq<char>| r.contains_key(k) && k != "model"@ && !is_legacy_entry(r, k),
        |k: Seq<char>| r[k],
    )
}

/// The legacy entries that move into `[model]`: those with a non-empty name
/// that `[model]` does not already hold. When `model` holds something other
/// than a table, nothing moves (the legacy entries are dropped).
pub open spec fn migrated_models(r: Map<Seq<char>, ConfigValue>) -> Map<Seq<char>, ConfigValue> {
    Map::new(
        |s: Seq<char>|
            !holds_non_table(r, "model"@) && s.len() > 0 && is_legacy_entry(r, "model."@ + s)
                && !sub_table(r, "model"@).contains_key(s),
        |s: Seq<char>| r["model."@ + s],
    )
}

/// The `[model]` table after the legacy entries were folded in.
pub open spec fn models_after_migration(r: Map<Seq<char>, ConfigValue>) -> Map<Seq<char>, ConfigValue> {
    sub_table(r, "model"@).union_prefer_right(migrated_models(r))
}

/// `m` holds the string `v` under `k`.
pub open spec fn text_is(m: Map<Seq<char>, ConfigValue>, k: Seq<char>, v: Seq<char>) -> bool {
    m.contains_key(k) && m[k] is Text && m[k]->Text_0@ == v
}

/// The seven fields a custom model section is given.
pub open spec fn custom_model_fields() -> Set<Seq<char>> {
    set![
        "model"@,
        "base_url"@,
        "name"@,
        "api_backend"@,
        "auth_scheme"@,
        "context_window"@,
        "api_key"@,
    ]
}

/// `new` is the section `old` with the canonical custom-model fields set:
/// `model` and `name` to the model name, `base_url`, `api_backend` and
/// `api_key` as given, `auth_scheme` to `bearer` and `context_window` to
/// 128000; any other field is kept.
pub open spec fn custom_section(
    old: Map<Seq<char>, ConfigValue>,
    new: Map<Seq<char>, ConfigValue>,
    name: Seq<char>,
    base_url: Seq<char>,
    api_key: Seq<char>,
    api_backend: Seq<char>,
) -> bool {
    &&& text_is(new, "model"@, name)
    &&& text_is(new, "base_url"@, base_url)
    &&& text_is(new, "name"@, name)
    &&& text_is(new, "api_backend"@, api_backend)
    &&& text_is(new, "auth_scheme"@, "bearer"@)
    &&& new.contains_key("context_window"@)
    &&& new["context_window"@] == ConfigValue::Integer(128000)
    &&& text_is(new, "api_key"@, api_key)
    &&& new.remove_keys(custom_model_fields()) == old.remove_keys(custom_model_fields())
}

fn set_text(entries: &mut Vec<ConfigEntry>, key: &str, value: &str)
    requires
        entries_wf(old(entries)@),
    ensures
        entries_wf(final(entries)@),
        table_map(final(entries)@).remove(key@) == table_map(old(entries)@).remove(key@),
        text_is(table_map(final(entries)@), key@, value@),
{
    let ghost before = table_map(entries@);
    let t = to_string(value);
    let ghost tv = ConfigValue::Text(t);
    table_set(entries, to_string(key), ConfigValue::Text(t));
    assert(table_map(entries@).remove(key@) =~= before.remove(key@));
}

proof fn lemma_other_key_kept(
    a: Map<Seq<char>, ConfigValue>,
    b: Map<Seq<char>, ConfigValue>,
    k: Seq<char>,
    other: Seq<char>,
)
    requires
        b.remove(k) == a.remove(k),
        other != k,
    ensures
        b.contains_key(other) == a.contains_key(other),
        a.contains_key(other) ==> b[other] == a[other],
{
    assert(b.remove(k).dom() == a.remove(k).dom());
    assert(b.remove(k).dom().contains(other) == b.dom().contains(other));
    assert(a.remove(k).dom().contains(other) == a.dom().contains(other));
    if a.contains_key(other) {
        assert(b.remove(k)[other] == b[other]);
        assert(a.remove(k)[other] == a[other]);
    }
}

/// Whether `key` is a legacy literal `"model.<name>"` key.
fn is_legacy_key(key: &str) -> (r: bool)
    ensures
        r == (key@.len() >= 6 && key@.take(6) == "model."@),
{
    let n = key.unicode_len();
    if n < 6 {
        return false;
    }
    let head = key.substring_char(0, 6);
    assert(head@ =~= key@.take(6));
    str_equal(head, "model.")
}

/// Upserting the custom model `name` into the tree `r0` gives the tree
/// `r1`: the legacy `"model.<name>"` tables are gone from the root, every
/// other root entry but `model` is kept, `[model]` holds the migrated
/// entries and the section `name` with the canonical custom-model fields.
pub open spec fn custom_model_upserted(
    r0: ConfigValue,
    r1: ConfigValue,
    name: Seq<char>,
    base_url: Seq<char>,
    api_key: Seq<char>,
    api_backend: Seq<char>,
) -> bool {
    let m0 = models_after_migration(value_map(r0));
    let m1 = value_map(value_map(r1)["model"@]);
    &&& value_wf(r1)
    &&& r1 is Table
    &&& value_map(r1).dom() == kept_root(value_map(r0)).dom().insert("model"@)
    &&& forall|k: Seq<char>| !is_legacy_entry(value_map(r1), k)
    &&& forall|k: Seq<char>| #[trigger]
        kept_root(value_map(r0)).contains_key(k) ==> value_map(r1)[k] == value_map(r0)[k]
    &&& value_map(r1)["model"@] is Table
    &&& m1.dom() == m0.dom().insert(name)
    &&& forall|s: Seq<char>| s != name && #[trigger] m0.contains_key(s) ==> m1[s] == m0[s]
    &&& m1[name] is Table
    &&& custom_section(sub_table(m0, name), value_map(m1[name]), name, base_url, api_key, api_backend)
}

/// Upserts the `[model.<name>]` section as a nested table
/// (`root["model"][name]`, never a literal dotted key) with the canonical
/// custom-model fields (see [`custom_section`]). Legacy literal
/// `"model.<name>"` tables at the root are first moved into `[model]`
/// (an entry already there wins) and removed from the root; a `model` or a
/// section that is not a table is replaced by a table.
pub fn upsert_custom_model_section(
    root: &mut ConfigValue,
    name: &str,
    base_url: &str,
    api_key: &str,
    api_backend: &str,
)
    requires
        *old(root) is Table,
        value_wf(*old(root)),
    ensures
        custom_model_upserted(*old(root), *final(root), name@, base_url@, api_key@, api_backend@),
{
    let ghost r0 = value_map(*root);
    let mut es = match take_root(root) {
        Some(es) => es,
        None => Vec::new(),
    };
    proof {
        crate::config::table::lemma_table_map(es@);
        reveal_strlit("model.");
        reveal_strlit("model");
    }
    // The legacy keys, in entry order.
    let n = es.len();
    let mut legacy: Vec<String> = Vec::new();
    let ghost mut idx: Seq<int> = Seq::empty();
    let mut i: usize = 0;
    while i < n
        invariant
            n == es@.len(),
            i <= n,
            entries_wf(es@),
            r0 == table_map(es@),
            legacy@.len() == idx.len(),
            forall|a: int| 0 <= a < idx.len() ==> 0 <= #[trigger] idx[a] < i,
            forall|a: int, b: int| 0 <= a < b < idx.len() ==> #[trigger] idx[a] < #[trigger] idx[b],
            forall|a: int| 0 <= a < idx.len() ==> #[trigger] legacy@[a]@ == es@[idx[a]].key@,
            forall|a: int| 0 <= a < idx.len() ==> is_legacy_entry(r0, #[trigger] legacy@[a]@),
            forall|k: int|
                0 <= k < i && is_legacy_entry(r0, #[trigger] es@[k].key@) ==> exists|a: int|
                    0 <= a < idx.len() && legacy@[a]@ == es@[k].key@,
        decreases n - i,
    {
        proof {
            crate::config::table::lemma_table_map(es@);
        }
        let ghost old_legacy = legacy@;
        let ghost old_idx = idx;
        let is_table = matches!(es[i].value, ConfigValue::Table(_));
        assert(table_map(es@)[es@[i as int].key@] == es@[i as int].value);
        if is_table && is_legacy_key(es[i].key.as_str()) {
            legacy.push(to_string(es[i].key.as_str()));
            proof {
                idx = idx.push(i as int);
                assert(legacy@[legacy@.len() - 1]@ == es@[i as int].key@);
            }
        }
        proof {
            assert forall|k: int|
                0 <= k < i + 1 && is_legacy_entry(r0, #[trigger] es@[k].key@) implies exists|a: int|
                    0 <= a < idx.len() && legacy@[a]@ == es@[k].key@ by {
                if k < i {
                    let a = choose|a: int| 0 <= a < old_idx.len() && old_legacy[a]@ == es@[k].key@;
                    assert(legacy@[a] == old_legacy[a]);
                } else {
                    assert(legacy@[idx.len() - 1]@ == es@[k].key@);
                }
            }
        }
        i = i + 1;
    }
    let ghost es0 = es@;
    proof {
        assert forall|a: int, b: int| 0 <= a < legacy@.len() && 0 <= b < legacy@.len() && a != b implies #[trigger] legacy@[a]@
            != #[trigger] legacy@[b]@ by {
            assert(idx[a] != idx[b]);
        }
        assert forall|k: Seq<char>| is_legacy_entry(r0, k) implies exists|a: int|
            0 <= a < legacy@.len() && #[trigger] legacy@[a]@ == k by {
            let e = choose|e: int| 0 <= e < es0.len() && es0[e].key@ == k;
            assert(is_legacy_entry(r0, es0[e].key@));
        }
    }
    // The `[model]` table that legacy entries move into.
    let ghost base = sub_table(r0, "model"@);
    let taken = table_take(&mut es, "model");
    let ghost taken_v = taken;
    let absorbs = match &taken {
        Some(ConfigValue::Table(_)) => true,
        Some(_) => false,
        None => true,
    };
    let mut models: Vec<ConfigEntry> = match taken {
        Some(ConfigValue::Table(m)) => m,
        _ => Vec::new(),
    };
    proof {
        assert(absorbs == !holds_non_table(r0, "model"@));
        if !(taken_v matches Some(ConfigValue::Table(_))) {
            assert(table_map(models@) =~= Map::<Seq<char>, ConfigValue>::empty());
        }
        assert(table_map(models@) == base);
    }
    let ghost mut done: Set<Seq<char>> = Set::empty();
    let nl = legacy.len();
    let mut j: usize = 0;
    proof {
        assert(table_map(es@) =~= Map::new(
            |k: Seq<char>| r0.contains_key(k) && k != "model"@ && !done.contains(k),
            |k: Seq<char>| r0[k],
        ));
        assert(table_map(models@) =~= base.union_prefer_right(
            Map::new(
                |s: Seq<char>|
                    absorbs && s.len() > 0 && done.contains("model."@ + s) && !base.contains_key(s),
                |s: Seq<char>| r0["model."@ + s],
            ),
        ));
    }
    while j < nl
        invariant
            nl == legacy@.len(),
            j <= nl,
            entries_wf(es@),
            entries_wf(models@),
            base == sub_table(r0, "model"@),
            absorbs == !holds_non_table(r0, "model"@),
            "model."@.len() == 6,
            "model"@.len() == 5,
            forall|a: int| 0 <= a < legacy@.len() ==> is_legacy_entry(r0, #[trigger] legacy@[a]@),
            forall|a: int, b: int| 0 <= a < legacy@.len() && 0 <= b < legacy@.len() && a != b ==> #[trigger] legacy@[a]@
                != #[trigger] legacy@[b]@,
            forall|x: Seq<char>| #[trigger] done.contains(x) ==> is_legacy_entry(r0, x),
            forall|a: int| 0 <= a < j ==> done.contains(#[trigger] legacy@[a]@),
            forall|a: int| j <= a < legacy@.len() ==> !done.contains(#[trigger] legacy@[a]@),
            table_map(es@) == Map::new(
                |k: Seq<char>| r0.contains_key(k) && k != "model"@ && !done.contains(k),
                |k: Seq<char>| r0[k],
            ),
            table_map(models@) == base.union_prefer_right(
                Map::new(
                    |s: Seq<char>|
                        absorbs && s.len() > 0 && done.contains("model."@ + s) && !base.contains_key(s),
                    |s: Seq<char>| r0["model."@ + s],
                ),
            ),
        decreases nl - j,
    {
        let key = legacy[j].as_str();
        let ghost kv = key@;
        let ghost es_before = table_map(es@);
        let ghost models_before = table_map(models@);
        assert(is_legacy_entry(r0, kv));
        assert(!done.contains(kv));
        let value = table_take(&mut es, key);
        let len = key.unicode_len();
        let suffix = key.substring_char(6, len);
        proof {
            assert(kv.take(6) == "model."@);
            assert("model."@ + suffix@ =~= kv);
            assert(kv != "model"@);
        }
        match value {
            Some(v) => {
                if absorbs && suffix.unicode_len() > 0 {
                    let ghost vv = v;
                    table_insert_if_absent(&mut models, to_string(suffix), v);
                    proof {
                        assert(vv == r0[kv]);
                    }
                }
            },
            None => {},
        }
        proof {
            let old_done = done;
            done = done.insert(kv);
            assert(table_map(es@) =~= Map::new(
                |k: Seq<char>| r0.contains_key(k) && k != "model"@ && !done.contains(k),
                |k: Seq<char>| r0[k],
            ));
            let mig_old = Map::new(
                |s: Seq<char>|
                    absorbs && s.len() > 0 && old_done.contains("model."@ + s) && !base.contains_key(s),
                |s: Seq<char>| r0["model."@ + s],
            );
            let mig_new = Map::new(
                |s: Seq<char>|
                    absorbs && s.len() > 0 && done.contains("model."@ + s) && !base.contains_key(s),
                |s: Seq<char>| r0["model."@ + s],
            );
            assert forall|s: Seq<char>| s != suffix@ implies (mig_new.contains_key(s) <==> mig_old.contains_key(s)) by {
                if "model."@ + s == kv {
                    assert(("model."@ + s).skip(6) =~= s);
                    assert(kv.skip(6) =~= suffix@);
                }
            }
            if mig_old.contains_key(suffix@) {
                assert(old_done.contains(kv));
            }
            assert(table_map(models@) =~= base.union_prefer_right(mig_new));
            assert forall|a: int| 0 <= a < j + 1 implies done.contains(#[trigger] legacy@[a]@) by {}
            assert forall|a: int| j + 1 <= a < legacy@.len() implies !done.contains(#[trigger] legacy@[a]@) by {
                assert(legacy@[a]@ != legacy@[j as int]@);
            }
        }
        j = j + 1;
    }
    let ghost m0 = models_after_migration(r0);
    proof {
        assert forall|k: Seq<char>| is_legacy_entry(r0, k) implies #[trigger] done.contains(k) by {
            let a = choose|a: int| 0 <= a < legacy@.len() && #[trigger] legacy@[a]@ == k;
            assert(done.contains(legacy@[a]@));
        }
        assert(table_map(es@) =~= kept_root(r0));
        assert(table_map(models@) =~= m0);
    }
    // The section itself.
    let sec_taken = table_take(&mut models, name);
    let ghost sec_v = sec_taken;
    let mut section: Vec<ConfigEntry> = match sec_taken {
        Some(ConfigValue::Table(t)) => t,
        _ => Vec::new(),
    };
    let ghost s0 = sub_table(m0, name@);
    proof {
        if !(sec_v matches Some(ConfigValue::Table(_))) {
            assert(table_map(section@) =~= Map::<Seq<char>, ConfigValue>::empty());
        }
        assert(table_map(section@) == s0);
    }
    let ghost f0 = table_map(section@);
    set_text(&mut section, "model", name);
    let ghost f1 = table_map(section@);
    set_text(&mut section, "base_url", base_url);
    let ghost f2 = table_map(section@);
    set_text(&mut section, "name", name);
    let ghost f3 = table_map(section@);
    set_text(&mut section, "api_backend", api_backend);
    let ghost f4 = table_map(section@);
    set_text(&mut section, "auth_scheme", "bearer");
    let ghost f5 = table_map(section@);
    table_set(&mut section, to_string("context_window"), ConfigValue::Integer(128000));
    let ghost f6 = table_map(section@);
    set_text(&mut section, "api_key", api_key);
    let ghost f7 = table_map(section@);
    proof {
        reveal_strlit("base_url");
        reveal_strlit("name");
        reveal_strlit("api_backend");
        reveal_strlit("auth_scheme");
        reveal_strlit("context_window");
        reveal_strlit("api_key");
        let keys = custom_model_fields();
        assert(f6 == f5.insert("context_window"@, ConfigValue::Integer(128000)));
        assert(f7.remove_keys(keys) =~= f0.remove_keys(keys)) by {
            assert(f1.remove("model"@) == f0.remove("model"@));
            assert(f2.remove("base_url"@) == f1.remove("base_url"@));
            assert(f3.remove("name"@) == f2.remove("name"@));
            assert(f4.remove("api_backend"@) == f3.remove("api_backend"@));
            assert(f5.remove("auth_scheme"@) == f4.remove("auth_scheme"@));
            assert(f7.remove("api_key"@) == f6.remove("api_key"@));
            assert forall|k: Seq<char>| !keys.contains(k) implies (f7.contains_key(k) == f0.contains_key(k) && (f7.contains_key(k) ==> f7[k] == f0[k])) by {
                assert(f1.remove("model"@).contains_key(k) == f0.remove("model"@).contains_key(k));
                assert(f2.remove("base_url"@).contains_key(k) == f1.remove("base_url"@).contains_key(k));
                assert(f3.remove("name"@).contains_key(k) == f2.remove("name"@).contains_key(k));
                assert(f4.remove("api_backend"@).contains_key(k) == f3.remove("api_backend"@).contains_key(k));
                assert(f5.remove("auth_scheme"@).contains_key(k) == f4.remove("auth_scheme"@).contains_key(k));
                assert(f7.remove("api_key"@).contains_key(k) == f6.remove("api_key"@).contains_key(k));
                if f7.contains_key(k) {
                    assert(f1.remove("model"@)[k] == f0.remove("model"@)[k]);
                    assert(f2.remove("base_url"@)[k] == f1.remove("base_url"@)[k]);
                    assert(f3.remove("name"@)[k] == f2.remove("name"@)[k]);
                    assert(f4.remove("api_backend"@)[k] == f3.remove("api_backend"@)[k]);
                    assert(f5.remove("auth_scheme"@)[k] == f4.remove("auth_scheme"@)[k]);
                    assert(f7.remove("api_key"@)[k] == f6.remove("api_key"@)[k]);
                }
            }
        }
        assert("model"@.len() == 5 && "base_url"@.len() == 8 && "name"@.len() == 4);
        assert("api_backend"@.len() == 11 && "auth_scheme"@.len() == 11);
        assert("context_window"@.len() == 14 && "api_key"@.len() == 7);
        assert("api_backend"@[1] != "auth_scheme"@[1]);
        assert(f6.remove("context_window"@) == f5.remove("context_window"@)) by {
            assert(f6.remove("context_window"@) =~= f5.remove("context_window"@));
        }
        lemma_other_key_kept(f1, f2, "base_url"@, "model"@);
        lemma_other_key_kept(f2, f3, "name"@, "model"@);
        lemma_other_key_kept(f3, f4, "api_backend"@, "model"@);
        lemma_other_key_kept(f4, f5, "auth_scheme"@, "model"@);
        lemma_other_key_kept(f5, f6, "context_window"@, "model"@);
        lemma_other_key_kept(f6, f7, "api_key"@, "model"@);
        lemma_other_key_kept(f2, f3, "name"@, "base_url"@);
        lemma_other_key_kept(f3, f4, "api_backend"@, "base_url"@);
        lemma_other_key_kept(f4, f5, "auth_scheme"@, "base_url"@);
        lemma_other_key_kept(f5, f6, "context_window"@, "base_url"@);
        lemma_other_key_kept(f6, f7, "api_key"@, "base_url"@);
        lemma_other_key_kept(f3, f4, "api_backend"@, "name"@);
        lemma_other_key_kept(f4, f5, "auth_scheme"@, "name"@);
        lemma_other_key_kept(f5, f6, "context_window"@, "name"@);
        lemma_other_key_kept(f6, f7, "api_key"@, "name"@);
        lemma_other_key_kept(f4, f5, "auth_scheme"@, "api_backend"@);
        lemma_other_key_kept(f5, f6, "context_window"@, "api_backend"@);
        lemma_other_key_kept(f6, f7, "api_key"@, "api_backend"@);
        lemma_other_key_kept(f5, f6, "context_window"@, "auth_scheme"@);
        lemma_other_key_kept(f6, f7, "api_key"@, "auth_scheme"@);
        lemma_other_key_kept(f6, f7, "api_key"@, "context_window"@);
        assert(custom_section(s0, f7, name@, base_url@, api_key@, api_backend@));
    }
    let ghost section_value = ConfigValue::Table(section);
    table_set(&mut models, to_string(name), ConfigValue::Table(section));
    let ghost m1 = table_map(models@);
    let ghost models_value = ConfigValue::Table(models);
    table_set(&mut es, to_string("model"), ConfigValue::Table(models));
    proof {
        let r1 = table_map(es@);
        assert(m1 == m0.remove(name@).insert(name@, section_value));
        assert(m1.dom() =~= m0.dom().insert(name@));
        assert(r1 == kept_root(r0).insert("model"@, models_value));
        assert(r1.dom() =~= kept_root(r0).dom().insert("model"@));
        assert forall|k: Seq<char>| !is_legacy_entry(r1, k) by {
            if k == "model"@ {
                assert(k.len() == 5);
            } else if r1.contains_key(k) {
                assert(kept_root(r0).contains_key(k));
            }
        }
    }
    *root = ConfigValue::Table(es);
}

/// A legacy `"model.<name>"` table with a non-empty name moves to
/// `[model].<name>` when `[model]` is a table (or missing) that does not
/// hold that name yet.
pub proof fn lemma_legacy_entry_migrates(r: Map<Seq<char>, ConfigValue>, s: Seq<char>)
    requires
        s.len() > 0,
        is_legacy_entry(r, "model."@ + s),
        !holds_non_table(r, "model"@),
        !sub_table(r, "model"@).contains_key(s),
    ensures
        models_after_migration(r).contains_key(s),
        models_after_migration(r)[s] == r["model."@ + s],
{
}

/// An entry already in `[model]` is never overwritten by a legacy one.
pub proof fn lemma_existing_model_entry_wins(r: Map<Seq<char>, ConfigValue>, s: Seq<char>)
    requires
        sub_table(r, "model"@).contains_key(s),
    ensures
        models_after_migration(r)[s] == sub_table(r, "model"@)[s],
{
}

/// The tree a custom model is saved into: an empty file gives an empty
/// table, and a document whose root is not a table is replaced by an empty
/// table; a table root is kept.
pub fn custom_model_root(parsed: Option<ConfigValue>) -> (r: ConfigValue)
    requires
        parsed matches Some(v) ==> value_wf(v),
    ensures
        r is Table,
        value_wf(r),
        parsed matches Some(ConfigValue::Table(_)) ==> Some(r) == parsed,
        !(parsed matches Some(ConfigValue::Table(_))) ==> value_map(r) == Map::<Seq<char>, ConfigValue>::empty(),
{
    match parsed {
        Some(ConfigValue::Table(es)) => ConfigValue::Table(es),
        _ => {
            let r = ConfigValue::Table(Vec::new());
            assert(value_map(r) =~= Map::<Seq<char>, ConfigValue>::empty());
            r
        },
    }
}

/// A successful `grok models add` writes every field under its own key in
/// `[model.<name>]`: `model`, `base_url` and `context_window` always, and
/// `name`, `api_key`, `env_key`, `api_backend` and `auth_scheme` exactly
/// when they are given, each holding the value given.
pub proof fn lemma_added_model_fields_by_key(
    r0: ConfigValue,
    r1: ConfigValue,
    name: String,
    model: String,
    base_url: String,
    api_key: Option<String>,
    env_key: Option<String>,
    display_name: Option<String>,
    context_window: u64,
    api_backend: Option<String>,
    auth_scheme: Option<String>,
    extra_headers: Seq<String>,
)
    requires
        model_added(
            r0,
            r1,
            Ok(()),
            name,
            model,
            base_url,
            api_key,
            env_key,
            display_name,
            context_window,
            api_backend,
            auth_scheme,
            extra_headers,
        ),
    ensures
        value_map(r1).contains_key("model"@),
        value_map(value_map(r1)["model"@]).contains_key(name@),
        ({
            let fields = value_map(value_map(value_map(r1)["model"@])[name@]);
            &&& fields.contains_key("model"@) && fields["model"@] == ConfigValue::Text(model)
            &&& fields.contains_key("base_url"@) && fields["base_url"@] == ConfigValue::Text(base_url)
            &&& fields.contains_key("context_window"@) && fields["context_window"@]
                == ConfigValue::Integer(#[verifier::truncate] (context_window as i64))
            &&& fields.contains_key("name"@) <==> display_name is Some
            &&& display_name is Some ==> fields["name"@] == ConfigValue::Text(display_name->0)
            &&& fields.contains_key("api_key"@) <==> api_key is Some
            &&& api_key is Some ==> fields["api_key"@] == ConfigValue::Text(api_key->0)
            &&& fields.contains_key("env_key"@) <==> env_key is Some
            &&& env_key is Some ==> fields["env_key"@] == ConfigValue::Text(env_key->0)
            &&& fields.contains_key("api_backend"@) <==> api_backend is Some
            &&& api_backend is Some ==> fields["api_backend"@] == ConfigValue::Text(api_backend->0)
            &&& fields.contains_key("auth_scheme"@) <==> auth_scheme is Some
            &&& auth_scheme is Some ==> fields["auth_scheme"@] == ConfigValue::Text(auth_scheme->0)
        }),
{
    reveal_strlit("extra_headers");
    reveal_strlit("model");
    reveal_strlit("base_url");
    reveal_strlit("context_window");
    reveal_strlit("name");
    reveal_strlit("api_key");
    reveal_strlit("env_key");
    reveal_strlit("api_backend");
    reveal_strlit("auth_scheme");
    let ok = Ok::<(), ConfigError>(());
    assert(r0 is Table);
    if !headers_ok(texts_view(extra_headers)) {
        let i = choose|i: int|
            is_first_bad_header(texts_view(extra_headers), i) && ok == Err::<(), ConfigError>(
                ConfigError::InvalidHeader(extra_headers[i]),
            ) && r1 == r0;
        assert(false);
    }
    assert(!holds_non_table(value_map(r0), "model"@));
    let models = value_map(value_map(r1)["model"@]);
    let fields = value_map(models[name@]);
    let expected = model_fields_view(
        model,
        base_url,
        api_key,
        env_key,
        display_name,
        context_window,
        api_backend,
        auth_scheme,
    );
    assert(fields.remove("extra_headers"@) == expected);
    let eh = "extra_headers"@;
    assert(eh.len() == 13);
    assert forall|k: Seq<char>| k != eh implies (fields.contains_key(k) <==> expected.contains_key(k))
        && (fields.contains_key(k) ==> fields[k] == expected[k]) by {
        assert(fields.remove(eh).contains_key(k) == fields.contains_key(k));
        if fields.contains_key(k) {
            assert(fields.remove(eh)[k] == fields[k]);
        }
    }
    assert(eh != "model"@ && eh != "base_url"@ && eh != "context_window"@ && eh != "name"@);
    assert(eh != "api_key"@ && eh != "env_key"@ && eh != "api_backend"@ && eh != "auth_scheme"@);
    assert("model"@.len() == 5 && "base_url"@.len() == 8 && "context_window"@.len() == 14);
    assert("name"@.len() == 4 && "api_key"@.len() == 7 && "env_key"@.len() == 7);
    assert("api_backend"@.len() == 11 && "auth_scheme"@.len() == 11);
    assert("api_key"@[1] != "env_key"@[1]);
    assert("api_backend"@[1] != "auth_scheme"@[1]);
    let m = Map::<Seq<char>, ConfigValue>::empty().insert("model"@, ConfigValue::Text(model)).insert(
        "base_url"@,
        ConfigValue::Text(base_url),
    ).insert("context_window"@, ConfigValue::Integer(#[verifier::truncate] (context_window as i64)));
    let m1 = with_optional(m, "name"@, display_name);
    let m2 = with_optional(m1, "api_key"@, api_key);
    let m3 = with_optional(m2, "env_key"@, env_key);
    let m4 = with_optional(m3, "api_backend"@, api_backend);
    assert(expected == with_optional(m4, "auth_scheme"@, auth_scheme));
    assert(m.contains_key("model"@) && m["model"@] == ConfigValue::Text(model));
    assert(expected.contains_key("model"@) && expected["model"@] == ConfigValue::Text(model));
    assert(expected.contains_key("base_url"@) && expected["base_url"@] == ConfigValue::Text(
        base_url,
    ));
    assert(expected.contains_key("context_window"@));
    assert(expected.contains_key("name"@) <==> display_name is Some);
    assert(expected.contains_key("api_key"@) <==> api_key is Some);
    assert(expected.contains_key("env_key"@) <==> env_key is Some);
    assert(expected.contains_key("api_backend"@) <==> api_backend is Some);
    assert(expected.contains_key("auth_scheme"@) <==> auth_scheme is Some);
}

} // verus!
