//! What `gremlin check` says of the models.
use vstd::prelude::*;

use crate::error::{ollama_message, OllamaError, OllamaErrorView};
use crate::ollama::ModelInfo;
use crate::text::{debug_list, debug_strings, texts};

verus! {

/// The names of models.
pub open spec fn model_names(models: Seq<ModelInfo>) -> Seq<Seq<char>> {
    models.map_values(|m: ModelInfo| m.name@)
}

/// What is said of the small model.
pub open spec fn model_lines(
    model: Seq<char>,
    exists: Result<bool, OllamaErrorView>,
    models: Seq<ModelInfo>,
) -> Seq<Seq<char>> {
    match exists {
        Ok(true) => seq!["  ✅ Model '"@ + model + "' is available"@],
        Ok(false) => seq![
            "  ❌ Model '"@ + model + "' not found. Pull it with: ollama pull "@ + model,
            "     Available models: "@ + debug_list(model_names(models)),
        ],
        Err(e) => seq!["  ❌ Failed to check model: "@ + ollama_message(e)],
    }
}

/// What is said of the vision model.
pub open spec fn vision_lines(model: Seq<char>, available: bool) -> Seq<Seq<char>> {
    if available {
        seq!["  ✅ Vision model '"@ + model + "' is available (screenshots enabled)"@]
    } else {
        seq![
            "  ⚠️  Vision model '"@ + model + "' not found — screenshots won't work"@,
            "     Pull it with: ollama pull "@ + model,
        ]
    }
}

fn names_of(models: &Vec<ModelInfo>) -> (r: Vec<String>)
    ensures
        texts(r@) == model_names(models@),
{
    let mut r: Vec<String> = Vec::new();
    let mut i: usize = 0;
    while i < models.len()
        invariant
            i <= models@.len(),
            texts(r@) =~= model_names(models@).take(i as int),
        decreases models@.len() - i,
    {
        let ghost before = r@;
        r.push(models[i].name.clone());
        i = i + 1;
        assert(texts(r@) =~= texts(before).push(models@[i - 1].name@));
    }
    assert(texts(r@) =~= model_names(models@));
    r
}

/// What is said of the small model.
pub fn model_report(model: &str, exists: &Result<bool, OllamaError>, models: &Vec<ModelInfo>) -> (r:
    Vec<String>)
    ensures
        texts(r@) == model_lines(
            model@,
            match *exists {
                Ok(b) => Ok(b),
                Err(e) => Err(e@),
            },
            models@,
        ),
{
    let mut r: Vec<String> = Vec::new();
    match exists {
        Ok(true) => {
            let mut line = "  ✅ Model '".to_owned();
            line.append(model);
            line.append("' is available");
            r.push(line);
            assert(texts(r@) =~= seq![line@]);
        },
        Ok(false) => {
            let mut line = "  ❌ Model '".to_owned();
            line.append(model);
            line.append("' not found. Pull it with: ollama pull ");
            line.append(model);
            let mut list = "     Available models: ".to_owned();
            list.append(debug_strings(&names_of(models)).as_str());
            r.push(line);
            r.push(list);
            assert(texts(r@) =~= seq![line@, list@]);
        },
        Err(e) => {
            let mut line = "  ❌ Failed to check model: ".to_owned();
            line.append(e.message().as_str());
            r.push(line);
            assert(texts(r@) =~= seq![line@]);
        },
    }
    r
}

/// What is said of the vision model.
pub fn vision_report(model: &str, available: bool) -> (r: Vec<String>)
    ensures
        texts(r@) == vision_lines(model@, available),
{
    let mut r: Vec<String> = Vec::new();
    if available {
        let mut line = "  ✅ Vision model '".to_owned();
        line.append(model);
        line.append("' is available (screenshots enabled)");
        r.push(line);
        assert(texts(r@) =~= seq![line@]);
    } else {
        let mut line = "  ⚠️  Vision model '".to_owned();
        line.append(model);
        line.append("' not found — screenshots won't work");
        let mut hint = "     Pull it with: ollama pull ".to_owned();
        hint.append(model);
        r.push(line);
        r.push(hint);
        assert(texts(r@) =~= seq![line@, hint@]);
    }
    r
}

} // verus!
