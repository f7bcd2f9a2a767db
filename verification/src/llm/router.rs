//! The model router's rules: how a model of the strategy is resolved to a
//! provider from `models.yaml`, and how a chain of models falls back.
use vstd::prelude::*;

use crate::config::{ModelEntry, ModelsConfig, ProviderEntry, ThinkingMode};
use crate::error::{spec_fallbackable, DaedalusError, ProviderError};
use crate::text::{concat3, str_eq};

verus! {

/// The provider types the router can build.
pub open spec fn known_provider_types() -> Seq<Seq<char>> {
    seq!["anthropic"@, "openai_compat"@]
}

/// The kind of provider a model is served by.
#[derive(Debug, Clone)]
pub enum ProviderKind {
    Anthropic,
    OpenAiCompat { base_url: String, thinking: Option<ThinkingMode> },
}

pub open spec fn ids_of(models: Seq<ModelEntry>) -> Seq<Seq<char>> {
    models.map_values(|m: ModelEntry| m.id@)
}

/// The first model entry with the id.
pub open spec fn entry_for(models: Seq<ModelEntry>, id: Seq<char>) -> Option<ModelEntry>
    decreases models.len(),
{
    if models.len() == 0 {
        None
    } else if models[0].id@ == id {
        Some(models[0])
    } else {
        entry_for(models.drop_first(), id)
    }
}

/// The provider declared under a name.
pub open spec fn provider_for(ps: Seq<(String, ProviderEntry)>, name: Seq<char>) -> Option<ProviderEntry>
    decreases ps.len(),
{
    if ps.len() == 0 {
        None
    } else if ps[0].0@ == name {
        Some(ps[0].1)
    } else {
        provider_for(ps.drop_first(), name)
    }
}

fn find_entry<'a>(models: &'a Vec<ModelEntry>, id: &str) -> (r: Option<&'a ModelEntry>)
    ensures
        match r {
            Some(e) => entry_for(models@, id@) == Some(*e),
            None => entry_for(models@, id@) is None,
        },
{
    let mut i: usize = 0;
    assert(models@.subrange(0, models@.len() as int) =~= models@);
    while i < models.len()
        invariant
            i <= models@.len(),
            entry_for(models@, id@) == entry_for(models@.subrange(i as int, models@.len() as int), id@),
        decreases models@.len() - i,
    {
        let ghost rest = models@.subrange(i as int, models@.len() as int);
        assert(rest.drop_first() =~= models@.subrange(i + 1, models@.len() as int));
        if str_eq(models[i].id.as_str(), id) {
            return Some(&models[i]);
        }
        i = i + 1;
    }
    None
}

pub fn find_provider<'a>(ps: &'a Vec<(String, ProviderEntry)>, name: &str) -> (r: Option<&'a ProviderEntry>)
    ensures
        match r {
            Some(p) => provider_for(ps@, name@) == Some(*p),
            None => provider_for(ps@, name@) is None,
        },
{
    let mut i: usize = 0;
    assert(ps@.subrange(0, ps@.len() as int) =~= ps@);
    while i < ps.len()
        invariant
            i <= ps@.len(),
            provider_for(ps@, name@) == provider_for(ps@.subrange(i as int, ps@.len() as int), name@),
        decreases ps@.len() - i,
    {
        let ghost rest = ps@.subrange(i as int, ps@.len() as int);
        assert(rest.drop_first() =~= ps@.subrange(i + 1, ps@.len() as int));
        if str_eq(ps[i].0.as_str(), name) {
            return Some(&ps[i].1);
        }
        i = i + 1;
    }
    None
}

fn known_types() -> (r: Vec<String>)
    ensures
        r@.map_values(|s: String| s@) == known_provider_types(),
{
    let mut v: Vec<String> = Vec::new();
    v.push(String::from_str("anthropic"));
    v.push(String::from_str("openai_compat"));
    assert(v@.map_values(|s: String| s@) =~= known_provider_types());
    v
}

pub open spec fn opt_view(o: Option<String>) -> Option<Seq<char>> {
    match o {
        Some(s) => Some(s@),
        None => None,
    }
}

/// Resolves a model of the strategy: its entry in `models.yaml`, its
/// provider, and the environment variable holding its API key (the
/// model's own, else its provider's).
pub fn resolve_model(models: &ModelsConfig, local_id: &str) -> (r: Result<
    (ModelEntry, ProviderEntry, Option<String>),
    DaedalusError,
>)
    ensures
        match entry_for(models.models@, local_id@) {
            None => r matches Err(DaedalusError::UnknownModel { model_id, known }) && model_id@
                == local_id@ && known@.map_values(|s: String| s@) == ids_of(models.models@),
            Some(e) => match provider_for(models.providers@, e.provider@) {
                None => r matches Err(DaedalusError::UnknownProvider { found, known }) && found@
                    == e.provider@ && known@.map_values(|s: String| s@) == known_provider_types(),
                Some(p) => r matches Ok((e2, p2, key)) && e2.id@ == e.id@ && e2.provider@
                    == e.provider@ && e2.model_id@ == e.model_id@ && opt_view(e2.base_url)
                    == opt_view(e.base_url) && e2.thinking == e.thinking && p2.provider_type@
                    == p.provider_type@ && opt_view(key) == match e.api_key_env {
                    Some(k) => Some(k@),
                    None => opt_view(p.api_key_env),
                },
            },
        },
{
    let entry = match find_entry(&models.models, local_id) {
        Some(e) => e,
        None => {
            let mut known: Vec<String> = Vec::new();
            let mut i: usize = 0;
            while i < models.models.len()
                invariant
                    i <= models.models@.len(),
                    known@.map_values(|s: String| s@) == ids_of(models.models@.subrange(0, i as int)),
                decreases models.models@.len() - i,
            {
                let ghost before = known@;
                known.push(models.models[i].id.clone());
                assert(known@.map_values(|s: String| s@) =~= before.map_values(|s: String| s@).push(
                    models.models@[i as int].id@,
                ));
                assert(ids_of(models.models@.subrange(0, i + 1)) =~= ids_of(
                    models.models@.subrange(0, i as int),
                ).push(models.models@[i as int].id@));
                i = i + 1;
            }
            assert(models.models@.subrange(0, models.models@.len() as int) =~= models.models@);
            return Err(DaedalusError::UnknownModel { model_id: String::from_str(local_id), known });
        },
    };
    let provider = match find_provider(&models.providers, entry.provider.as_str()) {
        Some(p) => p,
        None => {
            return Err(
                DaedalusError::UnknownProvider { found: entry.provider.clone(), known: known_types() },
            )
        },
    };
    let key = match &entry.api_key_env {
        Some(k) => Some(k.clone()),
        None => match &provider.api_key_env {
            Some(k) => Some(k.clone()),
            None => None,
        },
    };
    let e = ModelEntry {
        id: entry.id.clone(),
        provider: entry.provider.clone(),
        model_id: entry.model_id.clone(),
        base_url: match &entry.base_url {
            Some(b) => Some(b.clone()),
            None => None,
        },
        api_key_env: match &entry.api_key_env {
            Some(b) => Some(b.clone()),
            None => None,
        },
        thinking: entry.thinking,
    };
    let p = ProviderEntry {
        provider_type: provider.provider_type.clone(),
        api_key_env: match &provider.api_key_env {
            Some(b) => Some(b.clone()),
            None => None,
        },
    };
    Ok((e, p, key))
}

/// The environment variable to read the API key from; none named is a
/// missing key.
pub fn api_key_var(env_var: Option<&str>) -> (r: Result<String, DaedalusError>)
    ensures
        match env_var {
            Some(v) => r matches Ok(s) && s@ == v@,
            None => r matches Err(DaedalusError::MissingApiKey { env_var: e }) && e@
                == "(none specified)"@,
        },
{
    match env_var {
        Some(v) => Ok(String::from_str(v)),
        None => Err(DaedalusError::MissingApiKey { env_var: String::from_str("(none specified)") }),
    }
}

/// The kind of provider a resolved model needs: an Anthropic provider, or
/// an OpenAI-compatible one at the model's base URL (which it must have).
pub fn provider_kind(entry: &ModelEntry, provider: &ProviderEntry) -> (r: Result<ProviderKind, DaedalusError>)
    ensures
        provider.provider_type@ == "anthropic"@ ==> r matches Ok(ProviderKind::Anthropic),
        provider.provider_type@ == "openai_compat"@ ==> match entry.base_url {
            Some(b) => r matches Ok(ProviderKind::OpenAiCompat { base_url, thinking }) && base_url@
                == b@ && thinking == entry.thinking,
            None => r matches Err(DaedalusError::Yaml(m)) && m@ == "model '"@ + entry.id@
                + "' uses openai_compat but has no base_url"@,
        },
        provider.provider_type@ != "anthropic"@ && provider.provider_type@ != "openai_compat"@ ==> (
        r matches Err(DaedalusError::UnknownProvider { found, known }) && found@
            == provider.provider_type@ && known@.map_values(|s: String| s@) == known_provider_types()),
{
    proof {
        reveal_strlit("anthropic");
        reveal_strlit("openai_compat");
        assert("anthropic"@.len() == 9);
        assert("openai_compat"@.len() == 13);
    }
    if str_eq(provider.provider_type.as_str(), "anthropic") {
        Ok(ProviderKind::Anthropic)
    } else if str_eq(provider.provider_type.as_str(), "openai_compat") {
        match &entry.base_url {
            Some(b) => Ok(ProviderKind::OpenAiCompat { base_url: b.clone(), thinking: entry.thinking }),
            None => Err(
                DaedalusError::Yaml(
                    concat3("model '", entry.id.as_str(), "' uses openai_compat but has no base_url"),
                ),
            ),
        }
    } else {
        Err(
            DaedalusError::UnknownProvider { found: provider.provider_type.clone(), known: known_types() },
        )
    }
}

/// What a fallback chain does after a provider failed.
#[derive(Debug)]
pub enum Fallback {
    /// Try the next model; remember the error.
    Next(ProviderError),
    /// Give up with the error.
    Stop(ProviderError),
}

/// A failed attempt moves on to the next model when the error may pass
/// to another provider, and ends the chain otherwise.
pub fn after_provider_error(e: ProviderError) -> (r: Fallback)
    ensures
        spec_fallbackable(e) ==> (r matches Fallback::Next(x) && x == e),
        !spec_fallbackable(e) ==> (r matches Fallback::Stop(x) && x == e),
{
    if e.is_fallbackable() {
        Fallback::Next(e)
    } else {
        Fallback::Stop(e)
    }
}

/// The error for a model of the chain that no provider serves.
pub fn not_registered(model: &str) -> (r: ProviderError)
    ensures
        r matches ProviderError::ModelNotFound(m) && m@ == "model '"@ + model@ + "' not registered"@,
{
    ProviderError::ModelNotFound(concat3("model '", model, "' not registered"))
}

/// The error of a chain that ran out: the last error seen, or
/// `no provider in chain` when there was none.
pub fn chain_exhausted(last: Option<ProviderError>) -> (r: ProviderError)
    ensures
        match last {
            Some(e) => r == e,
            None => r matches ProviderError::ModelNotFound(m) && m@ == "no provider in chain"@,
        },
{
    match last {
        Some(e) => e,
        None => ProviderError::ModelNotFound(String::from_str("no provider in chain")),
    }
}

} // verus!
