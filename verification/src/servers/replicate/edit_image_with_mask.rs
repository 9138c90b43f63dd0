//! The tool that edits the masked part of an image along a prompt.

use vstd::prelude::*;
use crate::effect::{pair_value, Outcome, Pair, Step};
use crate::json::{Json, JsonView};
use crate::servers::replicate::errors::McpReplicateError;
use crate::servers::replicate::predict::{prediction_step, request_prediction};

verus! {

/// The input of the model: the image, the prompt and the mask.
pub open spec fn masked_edit_input(
    image: Seq<char>,
    mask: Seq<char>,
    prompt: Seq<char>,
) -> JsonView {
    JsonView::Object(
        seq![
            ("image"@, JsonView::Text(image)),
            ("prompt"@, JsonView::Text(prompt)),
            ("mask"@, JsonView::Text(mask)),
        ],
    )
}

/// What `edit_image_with_mask_tool` does, given the API token that the
/// environment holds, if any, and the answers so far: it starts a prediction
/// with the model that fills masked parts.
pub open spec fn edit_image_with_mask_step(
    step: Step<McpReplicateError>,
    token: Option<Seq<char>>,
    image: Seq<char>,
    mask: Seq<char>,
    prompt: Seq<char>,
    replies: Seq<Outcome>,
) -> bool {
    prediction_step(
        step,
        token,
        "https://api.replicate.com/v1/models/black-forest-labs/flux-fill-pro/predictions"@,
        masked_edit_input(image, mask, prompt),
        replies,
    )
}

/// Edits the image at the URL `image` where the mask at the URL `mask`
/// says, along `prompt`: the next thing to ask for, or the result, given
/// the answers so far.
pub fn edit_image_with_mask_tool(
    env: &Vec<Pair>,
    image: &str,
    mask: &str,
    prompt: &str,
    replies: &Vec<Outcome>,
) -> (step: Step<McpReplicateError>)
    ensures
        edit_image_with_mask_step(
            step,
            pair_value(env@, "REPLICATE_API_TOKEN"@),
            image@,
            mask@,
            prompt@,
            replies@,
        ),
{
    let url = String::from_str(
        "https://api.replicate.com/v1/models/black-forest-labs/flux-fill-pro/predictions",
    );
    let input = Json::object().with("image", Json::text(image)).with(
        "prompt",
        Json::text(prompt),
    ).with("mask", Json::text(mask));
    proof {
        assert(input@->Object_0 =~= masked_edit_input(image@, mask@, prompt@)->Object_0);
    }
    request_prediction(env, url, input, replies)
}

} // verus!
