//! The edits of `config.toml` as text: parse the existing document, edit
//! its tree, print the result. Reading and writing the file is the caller's.

use vstd::prelude::*;

use crate::config::model_config::{
    add_model_to_config, custom_model_root, custom_model_upserted, model_added,
    models_default_set, set_models_default, upsert_custom_model_section, value_map, ConfigError,
};
use crate::config::table::{value_wf, ConfigValue};
use crate::config::toml_text::{parse_toml, parsed_toml, print_toml, printed_toml};
use crate::web::auth::opt_str_view;

verus! {

/// Why a configuration text could not be edited.
#[derive(Debug, Clone, PartialEq, Eq)]
pub enum ConfigTextError {
    /// The existing text is not a TOML document; holds the parser's message.
    Unparseable(String),
    /// The edit was refused; the file is to be left as it is.
    Refused(ConfigError),
    /// The edited tree has no TOML text; holds the printer's message.
    Unprintable(String),
}

/// The tree a `grok models` edit starts from: an empty table when there is
/// no configuration file, the parsed document otherwise.
pub open spec fn starts_from(existing: Option<Seq<char>>, t: ConfigValue) -> bool {
    match existing {
        None => t is Table && value_map(t) == Map::<Seq<char>, ConfigValue>::empty(),
        Some(text) => parsed_toml(text) == Some(t),
    }
}

/// The tree a custom model is saved into: an empty table when the file is
/// missing or empty, or when the parsed document is not a table; the parsed
/// document otherwise.
pub open spec fn custom_starts_from(existing: Seq<char>, t: ConfigValue) -> bool {
    if existing.len() > 0 && parsed_toml(existing) is Some && parsed_toml(existing)->0 is Table {
        Some(t) == parsed_toml(existing)
    } else {
        t is Table && value_map(t) == Map::<Seq<char>, ConfigValue>::empty()
    }
}

fn start_tree(existing: Option<&str>) -> (r: Result<ConfigValue, ConfigTextError>)
    ensures
        (r matches Err(ConfigTextError::Unparseable(_))) <==> (existing matches Some(t)
            && parsed_toml(t@) is None),
        r is Err ==> r matches Err(ConfigTextError::Unparseable(_)),
        r matches Ok(t) ==> starts_from(opt_str_view(existing), t) && value_wf(t),
{
    match existing {
        None => {
            let t = ConfigValue::Table(Vec::new());
            assert(value_map(t) =~= Map::<Seq<char>, ConfigValue>::empty());
            Ok(t)
        },
        Some(text) => match parse_toml(text) {
            Ok(t) => Ok(t),
            Err(m) => Err(ConfigTextError::Unparseable(m)),
        },
    }
}

fn print_tree(t: &ConfigValue) -> (r: Result<String, ConfigTextError>)
    ensures
        r matches Ok(s) ==> printed_toml(*t) == Some(s@),
        r is Err ==> (r matches Err(ConfigTextError::Unprintable(_))) && printed_toml(*t) is None,
{
    match print_toml(t) {
        Ok(s) => Ok(s),
        Err(m) => Err(ConfigTextError::Unprintable(m)),
    }
}

/// `grok models add` on the text of `config.toml` (`None` when there is no
/// file): the new text, with `[model.<name>]` added or replaced (see
/// [`model_added`]).
pub fn add_model_text(
    existing: Option<&str>,
    name: String,
    model: String,
    base_url: String,
    api_key: Option<String>,
    env_key: Option<String>,
    display_name: Option<String>,
    context_window: u64,
    api_backend: Option<String>,
    auth_scheme: Option<String>,
    extra_headers: Vec<String>,
) -> (r: Result<String, ConfigTextError>)
    ensures
        (r matches Err(ConfigTextError::Unparseable(_))) <==> (existing matches Some(t)
            && parsed_toml(t@) is None),
        r matches Err(ConfigTextError::Refused(e)) ==> exists|t0: ConfigValue, t1: ConfigValue|
            starts_from(opt_str_view(existing), t0) && #[trigger] model_added(
                t0,
                t1,
                Err(e),
                name,
                model,
                base_url,
                api_key,
                env_key,
                display_name,
                context_window,
                api_backend,
                auth_scheme,
                extra_headers@,
            ),
        r matches Ok(s) ==> exists|t0: ConfigValue, t1: ConfigValue|
            starts_from(opt_str_view(existing), t0) && #[trigger] model_added(
                t0,
                t1,
                Ok(()),
                name,
                model,
                base_url,
                api_key,
                env_key,
                display_name,
                context_window,
                api_backend,
                auth_scheme,
                extra_headers@,
            ) && printed_toml(t1) == Some(s@),
        r matches Err(ConfigTextError::Unprintable(_)) ==> exists|t0: ConfigValue, t1: ConfigValue|
            starts_from(opt_str_view(existing), t0) && #[trigger] model_added(
                t0,
                t1,
                Ok(()),
                name,
                model,
                base_url,
                api_key,
                env_key,
                display_name,
                context_window,
                api_backend,
                auth_scheme,
                extra_headers@,
            ) && printed_toml(t1) is None,
{
    let mut root = start_tree(existing)?;
    let ghost t0 = root;
    let ghost args = (name, model, base_url, api_key, env_key, display_name, api_backend, auth_scheme);
    let ghost headers = extra_headers@;
    let res = add_model_to_config(
        &mut root,
        name,
        model,
        base_url,
        api_key,
        env_key,
        display_name,
        context_window,
        api_backend,
        auth_scheme,
        extra_headers,
    );
    assert(model_added(
        t0,
        root,
        res,
        args.0,
        args.1,
        args.2,
        args.3,
        args.4,
        args.5,
        context_window,
        args.6,
        args.7,
        headers,
    ));
    match res {
        Err(e) => Err(ConfigTextError::Refused(e)),
        Ok(()) => {
            assert(model_added(
                t0,
                root,
                Ok::<(), ConfigError>(()),
                args.0,
                args.1,
                args.2,
                args.3,
                args.4,
                args.5,
                context_window,
                args.6,
                args.7,
                headers,
            ));
            print_tree(&root)
        },
    }
}

/// `grok models default` on the text of `config.toml` (`None` when there is
/// no file): the new text, with `[models].default` set (see
/// [`models_default_set`]).
pub fn default_model_text(existing: Option<&str>, model: String) -> (r: Result<
    String,
    ConfigTextError,
>)
    ensures
        (r matches Err(ConfigTextError::Unparseable(_))) <==> (existing matches Some(t)
            && parsed_toml(t@) is None),
        r matches Err(ConfigTextError::Refused(e)) ==> exists|t0: ConfigValue, t1: ConfigValue|
            starts_from(opt_str_view(existing), t0) && #[trigger] models_default_set(
                t0,
                t1,
                Err(e),
                model,
            ),
        r matches Ok(s) ==> exists|t0: ConfigValue, t1: ConfigValue|
            starts_from(opt_str_view(existing), t0) && #[trigger] models_default_set(
                t0,
                t1,
                Ok(()),
                model,
            ) && printed_toml(t1) == Some(s@),
        r matches Err(ConfigTextError::Unprintable(_)) ==> exists|t0: ConfigValue, t1: ConfigValue|
            starts_from(opt_str_view(existing), t0) && #[trigger] models_default_set(
                t0,
                t1,
                Ok(()),
                model,
            ) && printed_toml(t1) is None,
{
    let mut root = start_tree(existing)?;
    let ghost t0 = root;
    let ghost m = model;
    let res = set_models_default(&mut root, model);
    assert(models_default_set(t0, root, res, m));
    match res {
        Err(e) => Err(ConfigTextError::Refused(e)),
        Ok(()) => {
            assert(models_default_set(t0, root, Ok::<(), ConfigError>(()), m));
            print_tree(&root)
        },
    }
}

/// Saving a custom API model on the text of `config.toml` (empty when the
/// file is missing): text that does not parse is refused and left alone;
/// otherwise the new text holds the upserted `[model.<name>]` section (see
/// [`custom_model_upserted`]).
pub fn custom_model_text(
    existing: &str,
    name: &str,
    base_url: &str,
    api_key: &str,
    api_backend: &str,
) -> (r: Result<String, ConfigTextError>)
    ensures
        (r matches Err(ConfigTextError::Unparseable(_))) <==> (existing@.len() > 0 && parsed_toml(
            existing@,
        ) is None),
        !(r matches Err(ConfigTextError::Refused(_))),
        r matches Ok(s) ==> exists|t0: ConfigValue, t1: ConfigValue|
            custom_starts_from(existing@, t0) && #[trigger] custom_model_upserted(
                t0,
                t1,
                name@,
                base_url@,
                api_key@,
                api_backend@,
            ) && printed_toml(t1) == Some(s@),
        r matches Err(ConfigTextError::Unprintable(_)) ==> exists|t0: ConfigValue, t1: ConfigValue|
            custom_starts_from(existing@, t0) && #[trigger] custom_model_upserted(
                t0,
                t1,
                name@,
                base_url@,
                api_key@,
                api_backend@,
            ) && printed_toml(t1) is None,
{
    let parsed = if existing.is_empty() {
        None
    } else {
        match parse_toml(existing) {
            Ok(v) => Some(v),
            Err(m) => {
                return Err(ConfigTextError::Unparseable(m));
            },
        }
    };
    let mut root = custom_model_root(parsed);
    let ghost t0 = root;
    assert(custom_starts_from(existing@, t0));
    upsert_custom_model_section(&mut root, name, base_url, api_key, api_backend);
    assert(custom_model_upserted(t0, root, name@, base_url@, api_key@, api_backend@));
    print_tree(&root)
}

} // verus!
