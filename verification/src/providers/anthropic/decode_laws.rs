//! Laws of response decoding: content parts keep the order of the response's
//! content blocks.
use vstd::prelude::*;

use crate::json::SpecJson;
use crate::providers::anthropic::decode::{
    spec_decode_anthropic_response, spec_decode_content_block, spec_decode_content_blocks, DecodeAcc,
};
use crate::types::task::SpecResponseFormat;
use crate::types::tool::{SpecContentPart, SpecToolCall};

verus! {

/// The content part a text block, or a tool-use block with an id, a name and
/// an object input, stands for; `None` for any other block.
pub open spec fn plain_block_part(b: SpecJson) -> Option<SpecContentPart> {
    if !b.is_object() {
        None
    } else if b.str_at("type"@) == Some("text"@) {
        match b.str_at("text"@) {
            Some(x) => Some(SpecContentPart::Text { text: x }),
            None => None,
        }
    } else if b.str_at("type"@) == Some("tool_use"@) {
        match (b.str_at("id"@), b.str_at("name"@), b.get("input"@)) {
            (Some(id), Some(name), Some(input)) => if input.is_object() {
                Some(SpecContentPart::ToolCall { tool_call: SpecToolCall { id, name, arguments_json: input } })
            } else {
                None
            },
            _ => None,
        }
    } else {
        None
    }
}

/// `pre` is a prefix of `s`.
pub open spec fn is_prefix(pre: Seq<SpecContentPart>, s: Seq<SpecContentPart>) -> bool {
    pre.len() <= s.len() && s.take(pre.len() as int) == pre
}

/// Decoding one block keeps the parts gathered so far, in place, and adds at
/// most one part after them; a text or well-formed tool-use block decodes, and
/// its part is the one added, at the end. The texts kept for structured output
/// grow by a text block's text, at the end, and by nothing else.
pub proof fn law_decode_block_appends(block: SpecJson, acc: DecodeAcc)
    ensures
        spec_decode_content_block(block, acc) matches Ok(a) ==> is_prefix(acc.content, a.content)
            && a.content.len() <= acc.content.len() + 1,
        plain_block_part(block) matches Some(p) ==> spec_decode_content_block(block, acc) matches Ok(a)
            && a.content == acc.content.push(p),
        spec_decode_content_block(block, acc) matches Ok(a) ==> a.text_blocks == match plain_block_part(block) {
            Some(SpecContentPart::Text { text }) => acc.text_blocks.push(text),
            _ => acc.text_blocks,
        },
{
    reveal_strlit("text");
    reveal_strlit("tool_use");
    assert("text"@.len() != "tool_use"@.len());
    match spec_decode_content_block(block, acc) {
        Ok(a) => {
            if a.content.len() > acc.content.len() {
                assert(a.content.take(acc.content.len() as int) =~= acc.content);
            } else {
                assert(a.content.take(acc.content.len() as int) =~= acc.content);
            }
        },
        Err(_) => {},
    }
}

/// Decoding a list of blocks keeps the parts gathered before, in place, and
/// adds at most one part per block after them.
pub proof fn law_decode_blocks_keep_earlier_parts(blocks: Seq<SpecJson>, acc: DecodeAcc)
    ensures
        spec_decode_content_blocks(blocks, acc) matches Ok(a) ==> is_prefix(acc.content, a.content)
            && a.content.len() <= acc.content.len() + blocks.len(),
    decreases blocks.len(),
{
    if blocks.len() == 0 {
        assert(acc.content.take(acc.content.len() as int) =~= acc.content);
    } else {
        law_decode_blocks_keep_earlier_parts(blocks.drop_last(), acc);
        match spec_decode_content_blocks(blocks.drop_last(), acc) {
            Ok(a1) => {
                law_decode_block_appends(blocks.last(), a1);
                match spec_decode_content_block(blocks.last(), a1) {
                    Ok(a2) => {
                        let n = acc.content.len() as int;
                        assert forall|k: int| 0 <= k < n implies a2.content[k] == acc.content[k] by {
                            assert(a2.content.take(a1.content.len() as int)[k] == a1.content[k]);
                            assert(a1.content.take(n)[k] == a1.content[k]);
                        }
                        assert(a2.content.take(n) =~= acc.content);
                    },
                    Err(_) => {},
                }
            },
            Err(_) => {},
        }
    }
}

/// Decoding `b1 ++ b2` decodes `b1` and then, from what it gathered, `b2`; an
/// error in `b1` stops it.
pub proof fn law_decode_blocks_split(b1: Seq<SpecJson>, b2: Seq<SpecJson>, acc: DecodeAcc)
    ensures
        spec_decode_content_blocks(b1 + b2, acc) == match spec_decode_content_blocks(b1, acc) {
            Ok(a) => spec_decode_content_blocks(b2, a),
            Err(m) => Err(m),
        },
    decreases b2.len(),
{
    if b2.len() == 0 {
        assert(b1 + b2 =~= b1);
    } else {
        assert((b1 + b2).drop_last() =~= b1 + b2.drop_last());
        assert((b1 + b2).last() == b2.last());
        law_decode_blocks_split(b1, b2.drop_last(), acc);
    }
}

/// The parts of a list of text and well-formed tool-use blocks.
pub open spec fn plain_parts(blocks: Seq<SpecJson>) -> Seq<SpecContentPart> {
    blocks.map_values(|b: SpecJson| plain_block_part(b)->0)
}

/// A list of text and well-formed tool-use blocks decodes, and its parts
/// follow the parts gathered before, one per block, in the blocks' order.
pub proof fn law_plain_blocks_decode_in_order(blocks: Seq<SpecJson>, acc: DecodeAcc)
    requires
        forall|j: int| 0 <= j < blocks.len() ==> (#[trigger] plain_block_part(blocks[j])) is Some,
    ensures
        spec_decode_content_blocks(blocks, acc) matches Ok(a) && a.content == acc.content + plain_parts(blocks),
    decreases blocks.len(),
{
    if blocks.len() == 0 {
        assert(acc.content + plain_parts(blocks) =~= acc.content);
    } else {
        let init = blocks.drop_last();
        assert forall|j: int| 0 <= j < init.len() implies (#[trigger] plain_block_part(init[j])) is Some by {
            assert(init[j] == blocks[j]);
        }
        law_plain_blocks_decode_in_order(init, acc);
        let a1 = spec_decode_content_blocks(init, acc)->Ok_0;
        assert(plain_block_part(blocks[blocks.len() - 1]) is Some);
        law_decode_block_appends(blocks.last(), a1);
        assert(acc.content + plain_parts(blocks) =~= (acc.content + plain_parts(init)).push(
            plain_block_part(blocks.last())->0,
        ));
    }
}

/// When a response whose `content` array holds only text and well-formed
/// tool-use blocks decodes, its content parts are those blocks' parts, in the
/// array's order.
pub proof fn law_response_content_follows_blocks(body: SpecJson, blocks: Seq<SpecJson>, format: SpecResponseFormat)
    requires
        body.get("content"@) == Some(SpecJson::Array(blocks)),
        forall|j: int| 0 <= j < blocks.len() ==> (#[trigger] plain_block_part(blocks[j])) is Some,
    ensures
        spec_decode_anthropic_response(body, format) matches Ok(resp) ==> resp.output.content == plain_parts(blocks),
{
    let empty = DecodeAcc { content: seq![], text_blocks: seq![], warnings: seq![] };
    law_plain_blocks_decode_in_order(blocks, empty);
    assert(empty.content + plain_parts(blocks) =~= plain_parts(blocks));
}

} // verus!
