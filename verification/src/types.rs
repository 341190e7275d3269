//! Data model of the chat core: message roles, messages, usage reports,
//! per-token pricing, and usage-based cost.
//!
//! All monetary amounts are integers in nano-dollars (10^-9 USD) so that cost
//! arithmetic is exact; timestamps are milliseconds since the epoch.

use vstd::prelude::*;

verus! {

/// The speaker of one conversation turn.
#[derive(Clone, Copy, PartialEq, Eq, Structural, Debug)]
pub enum Role {
    System,
    User,
    Assistant,
}

/// Cost of one assistant message, split by prompt and completion side,
/// in nano-dollars.
#[derive(Clone, Copy, PartialEq, Eq, Structural, Debug)]
pub struct MessageCost {
    pub prompt_nano_usd: u128,
    pub completion_nano_usd: u128,
}

/// Terminal usage report of one streamed response.
#[derive(Clone, Copy, PartialEq, Eq, Structural, Debug)]
pub struct Usage {
    pub prompt_tokens: u64,
    pub completion_tokens: u64,
}

/// Per-token prices of a model, in nano-dollars per token.
/// A side without a published price is `None` and costs zero.
#[derive(Clone, Copy, PartialEq, Eq, Structural, Debug)]
pub struct ModelPricing {
    pub prompt_nano_usd_per_token: Option<u64>,
    pub completion_nano_usd_per_token: Option<u64>,
}

/// One entry of the model catalog: identifier, human-readable name, prices.
pub struct DisplayModelInfo {
    pub id: String,
    pub name: String,
    pub pricing: ModelPricing,
}

/// Sampling configuration of one request. The temperature is carried in
/// thousandths (1000 = 1.0).
pub struct Model {
    pub model: String,
    pub seed: Option<i64>,
    pub temperature_milli: Option<u32>,
}

/// One turn in a conversation. `content` grows in place while the turn is
/// being streamed; `cost` stays `None` until a usage report arrives.
pub struct Message {
    pub role: Role,
    pub content: String,
    pub prompt_name: Option<String>,
    pub model_name: Option<String>,
    pub cost: Option<MessageCost>,
}

/// Mathematical view of a `Message`.
pub struct MessageView {
    pub role: Role,
    pub content: Seq<char>,
    pub prompt_name: Option<Seq<char>>,
    pub model_name: Option<Seq<char>>,
    pub cost: Option<MessageCost>,
}

/// View of an `Option<String>` as an optional character sequence.
pub open spec fn opt_view(s: Option<String>) -> Option<Seq<char>> {
    match s {
        Some(t) => Some(t@),
        None => None,
    }
}

impl View for Message {
    type V = MessageView;

    open spec fn view(&self) -> MessageView {
        MessageView {
            role: self.role,
            content: self.content@,
            prompt_name: opt_view(self.prompt_name),
            model_name: opt_view(self.model_name),
            cost: self.cost,
        }
    }
}

/// Views of a sequence of messages.
pub open spec fn msg_views(ms: Seq<Message>) -> Seq<MessageView> {
    ms.map_values(|m: Message| m@)
}

impl Clone for Message {
    fn clone(&self) -> (res: Self)
        ensures
            res@ == self@,
    {
        Message {
            role: self.role,
            content: self.content.clone(),
            prompt_name: clone_opt_string(&self.prompt_name),
            model_name: clone_opt_string(&self.model_name),
            cost: self.cost,
        }
    }
}

/// Clones an optional string, keeping its view.
pub fn clone_opt_string(s: &Option<String>) -> (res: Option<String>)
    ensures
        opt_view(res) == opt_view(*s),
{
    match s {
        Some(t) => Some(t.clone()),
        None => None,
    }
}

/// Price of one side, or zero where no price is published.
pub open spec fn price_or_zero(p: Option<u64>) -> u64 {
    match p {
        Some(v) => v,
        None => 0,
    }
}

/// Cost of a usage report under a pricing: tokens times price per token,
/// on each side, in nano-dollars.
pub open spec fn cost_of(usage: Usage, pricing: ModelPricing) -> MessageCost {
    MessageCost {
        prompt_nano_usd: (usage.prompt_tokens * price_or_zero(
            pricing.prompt_nano_usd_per_token,
        )) as u128,
        completion_nano_usd: (usage.completion_tokens * price_or_zero(
            pricing.completion_nano_usd_per_token,
        )) as u128,
    }
}

/// Computes the exact cost of a usage report. A side whose per-token price
/// is absent costs zero rather than failing.
pub fn compute_cost(usage: &Usage, pricing: &ModelPricing) -> (c: MessageCost)
    ensures
        c == cost_of(*usage, *pricing),
{
    proof {
        lemma_u64_product_fits(
            usage.prompt_tokens,
            price_or_zero(pricing.prompt_nano_usd_per_token),
        );
        lemma_u64_product_fits(
            usage.completion_tokens,
            price_or_zero(pricing.completion_nano_usd_per_token),
        );
    }
    let prompt_price: u64 = match pricing.prompt_nano_usd_per_token {
        Some(p) => p,
        None => 0,
    };
    let completion_price: u64 = match pricing.completion_nano_usd_per_token {
        Some(p) => p,
        None => 0,
    };
    MessageCost {
        prompt_nano_usd: usage.prompt_tokens as u128 * prompt_price as u128,
        completion_nano_usd: usage.completion_tokens as u128 * completion_price as u128,
    }
}

/// The product of two 64-bit values fits in 128 bits.
proof fn lemma_u64_product_fits(a: u64, b: u64)
    ensures
        a as int * b as int <= u128::MAX,
{
    assert(a as int * b as int <= u64::MAX as int * u64::MAX as int) by (nonlinear_arith)
        requires
            0 <= a <= u64::MAX,
            0 <= b <= u64::MAX,
    ;
}

/// Looks a model's pricing up by identifier; an unknown model has no
/// published prices (both sides `None`), so its usage costs zero.
pub open spec fn pricing_of(models: Seq<(Seq<char>, ModelPricing)>, id: Seq<char>) -> ModelPricing
    decreases models.len(),
{
    if models.len() == 0 {
        ModelPricing { prompt_nano_usd_per_token: None, completion_nano_usd_per_token: None }
    } else if models.first().0 == id {
        models.first().1
    } else {
        pricing_of(models.drop_first(), id)
    }
}

/// Views of a model catalog as (identifier, pricing) pairs.
pub open spec fn catalog_view(models: Seq<DisplayModelInfo>) -> Seq<(Seq<char>, ModelPricing)> {
    models.map_values(|m: DisplayModelInfo| (m.id@, m.pricing))
}

/// Finds the pricing of the first catalog entry with the given identifier,
/// or an empty pricing when the model is unknown.
pub fn pricing_for_model(models: &Vec<DisplayModelInfo>, id: &String) -> (p: ModelPricing)
    ensures
        p == pricing_of(catalog_view(models@), id@),
{
    let mut i: usize = 0;
    proof {
        assert(catalog_view(models@).skip(0) =~= catalog_view(models@));
    }
    while i < models.len()
        invariant
            0 <= i <= models.len(),
            pricing_of(catalog_view(models@), id@) == pricing_of(
                catalog_view(models@).skip(i as int),
                id@,
            ),
        decreases models.len() - i,
    {
        if models[i].id == *id {
            assert(catalog_view(models@).skip(i as int).first() == (
                models@[i as int].id@,
                models@[i as int].pricing,
            ));
            return models[i].pricing;
        }
        proof {
            assert(catalog_view(models@).skip(i as int).drop_first() =~= catalog_view(
                models@,
            ).skip(i + 1));
        }
        i = i + 1;
    }
    proof {
        assert(catalog_view(models@).skip(i as int).len() == 0);
    }
    ModelPricing { prompt_nano_usd_per_token: None, completion_nano_usd_per_token: None }
}

} // verus!
