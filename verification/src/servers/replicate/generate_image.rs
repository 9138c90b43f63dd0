//! The tool that generates an image by prompting a model.

use vstd::prelude::*;
use crate::effect::{pair_value, Outcome, Pair, Step};
use crate::json::{Json, JsonView};
use crate::servers::replicate::errors::McpReplicateError;
use crate::servers::replicate::predict::{prediction_step, request_prediction};
use crate::text::{concat, optional_view};

verus! {

/// The input of the model: the prompt, and the LoRA weights where there
/// are any.
pub open spec fn generation_input(prompt: Seq<char>, lora_weights: Option<Seq<char>>) -> JsonView {
    match lora_weights {
        Some(weights) => JsonView::Object(
            seq![("prompt"@, JsonView::Text(prompt)), ("lora_weights"@, JsonView::Text(weights))],
        ),
        None => JsonView::Object(seq![("prompt"@, JsonView::Text(prompt))]),
    }
}

/// What `generate_image_tool` does, given the API token that the
/// environment holds, if any, and the answers so far: it starts a prediction
/// with the model.
pub open spec fn generate_image_step(
    step: Step<McpReplicateError>,
    token: Option<Seq<char>>,
    model_id: Seq<char>,
    prompt: Seq<char>,
    lora_weights: Option<Seq<char>>,
    replies: Seq<Outcome>,
) -> bool {
    prediction_step(
        step,
        token,
        "https://api.replicate.com/v1/models/"@ + model_id + "/predictions"@,
        generation_input(prompt, lora_weights),
        replies,
    )
}

/// Generates an image with the model `model_id`: the next thing to ask
/// for, or the result, given the answers so far.
pub fn generate_image_tool(
    env: &Vec<Pair>,
    model_id: &str,
    prompt: &str,
    lora_weights: Option<&str>,
    replies: &Vec<Outcome>,
) -> (step: Step<McpReplicateError>)
    ensures
        generate_image_step(
            step,
            pair_value(env@, "REPLICATE_API_TOKEN"@),
            model_id@,
            prompt@,
            optional_view(lora_weights),
            replies@,
        ),
{
    let mut url = concat("https://api.replicate.com/v1/models/", model_id);
    url.append("/predictions");
    let mut input = Json::object().with("prompt", Json::text(prompt));
    proof {
        assert(Seq::<(Seq<char>, JsonView)>::empty().push(("prompt"@, JsonView::Text(prompt@)))
            =~= seq![("prompt"@, JsonView::Text(prompt@))]);
    }
    match lora_weights {
        Some(weights) => {
            input = input.with("lora_weights", Json::text(weights));
            proof {
                assert(seq![("prompt"@, JsonView::Text(prompt@))].push(
                    ("lora_weights"@, JsonView::Text(weights@)),
                ) =~= seq![
                    ("prompt"@, JsonView::Text(prompt@)),
                    ("lora_weights"@, JsonView::Text(weights@)),
                ]);
            }
        },
        None => {},
    }
    request_prediction(env, url, input, replies)
}

} // verus!
