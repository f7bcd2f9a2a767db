//! The model list of the configuration endpoint.
use vstd::prelude::*;

use crate::config::{ModelEntry, ModelsConfig, ProviderEntry};
use crate::llm::router::{find_provider, provider_for};
use crate::text::{concat3, push_str};

verus! {

/// One model as the endpoint lists it.
#[derive(Debug)]
pub struct ModelSummary {
    pub id: String,
    pub provider: String,
    pub provider_type: String,
}

/// Whether every model names a declared provider.
pub open spec fn providers_known(models: Seq<ModelEntry>, ps: Seq<(String, ProviderEntry)>) -> bool {
    forall|i: int| 0 <= i < models.len() ==> provider_for(ps, #[trigger] models[i].provider@) is Some
}

/// The models of the configuration, in order, each with its provider's
/// type; the first model naming an undeclared provider is an error.
pub fn model_summaries(config: &ModelsConfig) -> (r: Result<Vec<ModelSummary>, String>)
    ensures
        providers_known(config.models@, config.providers@) <==> r is Ok,
        r matches Ok(v) ==> v@.len() == config.models@.len() && forall|i: int|
            0 <= i < v@.len() ==> {
                &&& (#[trigger] v@[i]).id@ == config.models@[i].id@
                &&& v@[i].provider@ == config.models@[i].provider@
                &&& provider_for(config.providers@, config.models@[i].provider@) matches Some(p)
                    && v@[i].provider_type@ == p.provider_type@
            },
        r matches Err(m) ==> exists|i: int|
            0 <= i < config.models@.len() && provider_for(
                config.providers@,
                #[trigger] config.models@[i].provider@,
            ) is None && m@ == "model '"@ + config.models@[i].id@ + "' references unknown provider '"@
                + config.models@[i].provider@ + "'"@,
{
    let mut out: Vec<ModelSummary> = Vec::new();
    let mut i: usize = 0;
    while i < config.models.len()
        invariant
            i <= config.models@.len(),
            out@.len() == i,
            forall|j: int| 0 <= j < i ==> provider_for(config.providers@, #[trigger] config.models@[j].provider@) is Some,
            forall|j: int|
                0 <= j < i ==> {
                    &&& (#[trigger] out@[j]).id@ == config.models@[j].id@
                    &&& out@[j].provider@ == config.models@[j].provider@
                    &&& provider_for(config.providers@, config.models@[j].provider@) matches Some(p)
                        && out@[j].provider_type@ == p.provider_type@
                },
        decreases config.models@.len() - i,
    {
        let e = &config.models[i];
        let t = match find_provider(&config.providers, e.provider.as_str()) {
            Some(p) => p.provider_type.clone(),
            None => {
                let mut m = concat3("model '", e.id.as_str(), "' references unknown provider '");
                push_str(&mut m, e.provider.as_str());
                push_str(&mut m, "'");
                return Err(m);
            },
        };
        out.push(ModelSummary { id: e.id.clone(), provider: e.provider.clone(), provider_type: t });
        i = i + 1;
    }
    Ok(out)
}

} // verus!
