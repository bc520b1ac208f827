//! Decoding a chunked, line-delimited response into a stream of tokens.
//!
//! A backend answers in chunks of bytes that end anywhere: inside a line,
//! and inside a character. The decoder keeps the bytes of the line that has
//! begun and takes every complete line off their front. The byte that ends a
//! line is never part of a longer character, so a line is complete as soon
//! as that byte has come, and only then it is read as text. A line is
//! trimmed; an empty line and the end marker `data: [DONE]` are passed over;
//! a leading `data: ` is removed; what is left is parsed as JSON. A line that
//! parses gives a token, one that does not gives an error, and decoding goes
//! on after either. A failure of the chunk source gives an error and ends
//! the stream. The last element of every stream is the one token with
//! `is_finish` set.
//!
//! What a stream holds depends on the bytes that were received and on how
//! their source ended, and not on where the chunks were cut.

use crate::agent::{ErrorModel, MCPError};
use crate::json::{parse_json_debug, parsed_json_debug, text_outcome};
use crate::text::{
    after_first, before_first, decode_lossy, first_index, has_prefix, joined, lemma_first_index,
    lemma_first_index_unique, strip_prefix, text_eq, text_of, trim, trim_spec,
};
use vstd::prelude::*;
use vstd::slice::{slice_subrange, slice_to_vec};

verus! {

/// One piece of a streamed answer.
#[derive(Debug)]
pub struct StreamingToken {
    /// The text of this piece.
    pub content: String,
    /// Set on the last token of a stream, and on no other.
    pub is_finish: bool,
    /// Whatever else the producer attached.
    pub metadata: Option<serde_json::Value>,
}

impl Clone for StreamingToken {
    fn clone(&self) -> (r: Self)
        ensures
            r == *self,
    {
        StreamingToken {
            content: self.content.clone(),
            is_finish: self.is_finish,
            metadata: match &self.metadata {
                Some(value) => Some(value.clone()),
                None => None,
            },
        }
    }
}

/// `StreamingToken` with its content as a character sequence.
pub struct TokenModel {
    pub content: Seq<char>,
    pub is_finish: bool,
    pub metadata: Option<serde_json::Value>,
}

impl View for StreamingToken {
    type V = TokenModel;

    open spec fn view(&self) -> TokenModel {
        TokenModel { content: self.content@, is_finish: self.is_finish, metadata: self.metadata }
    }
}

/// An element of a token stream by its model: a token or an error.
pub type ItemModel = Result<TokenModel, ErrorModel>;

/// The model of one element of a token stream.
pub open spec fn item_model(item: Result<StreamingToken, MCPError>) -> ItemModel {
    match item {
        Ok(token) => Ok(token@),
        Err(error) => Err(error@),
    }
}

/// The models of the elements of a token stream, in order.
pub open spec fn stream_model(items: Seq<Result<StreamingToken, MCPError>>) -> Seq<ItemModel> {
    items.map_values(|item: Result<StreamingToken, MCPError>| item_model(item))
}

/// The views of a list of strings, in order.
pub open spec fn texts(lines: Seq<String>) -> Seq<Seq<char>> {
    lines.map_values(|line: String| line@)
}

/// The byte that ends a line. No character of more than one byte holds it.
pub open spec fn line_end() -> u8 {
    0x0A
}

/// The line that marks the end of a stream and carries no token.
pub open spec fn end_marker() -> Seq<char> {
    "data: [DONE]"@
}

/// The prefix that event-stream framing puts in front of a payload.
pub open spec fn data_prefix() -> Seq<char> {
    "data: "@
}

/// The token that closes every stream.
pub open spec fn finish_token() -> TokenModel {
    TokenModel { content: Seq::empty(), is_finish: true, metadata: None }
}

/// The token that carries the rendering of a parsed line.
pub open spec fn content_token(content: Seq<char>) -> TokenModel {
    TokenModel { content, is_finish: false, metadata: None }
}

/// The lines of `bytes` that are complete, that is, followed by a line end,
/// in order and without their line ends.
pub open spec fn complete_lines(bytes: Seq<u8>) -> Seq<Seq<u8>>
    decreases bytes.len(),
{
    if bytes.contains(line_end()) {
        proof {
            lemma_first_index(bytes, line_end());
        }
        seq![before_first(bytes, line_end())] + complete_lines(after_first(bytes, line_end()))
    } else {
        Seq::empty()
    }
}

/// What `bytes` hold behind their last line end: the beginning of a line
/// that is not complete yet.
pub open spec fn pending(bytes: Seq<u8>) -> Seq<u8>
    decreases bytes.len(),
{
    if bytes.contains(line_end()) {
        proof {
            lemma_first_index(bytes, line_end());
        }
        pending(after_first(bytes, line_end()))
    } else {
        bytes
    }
}

/// What is to be parsed of one line: nothing for a line that is empty after
/// trimming or that is the end marker, otherwise the trimmed line without
/// the data prefix, if it has one.
pub open spec fn line_payload(line: Seq<char>) -> Option<Seq<char>> {
    let trimmed = trim_spec(line);
    if trimmed.len() == 0 || trimmed == end_marker() {
        None
    } else if has_prefix(trimmed, data_prefix()) {
        Some(trimmed.skip(data_prefix().len() as int))
    } else {
        Some(trimmed)
    }
}

/// The payloads of a list of lines, each line read as text, in order, lines
/// without payload left out.
pub open spec fn payloads(lines: Seq<Seq<u8>>) -> Seq<Seq<char>>
    decreases lines.len(),
{
    if lines.len() == 0 {
        Seq::empty()
    } else {
        match line_payload(text_of(lines.first())) {
            Some(payload) => seq![payload] + payloads(lines.drop_first()),
            None => payloads(lines.drop_first()),
        }
    }
}

/// The text of the error for a line that could not be parsed for the reason
/// `why`.
pub open spec fn unreadable_text(why: Seq<char>) -> Seq<char> {
    "Erro ao desserializar: "@ + why
}

/// The text of the error for a source that failed with `detail`.
pub open spec fn transport_text(detail: Seq<char>) -> Seq<char> {
    "Erro de rede: "@ + detail
}

/// The stream element for one parsed payload: a token with the rendering of
/// the parsed value, or the error that tells why the line could not be
/// parsed.
pub open spec fn parsed_item(parsed: Result<Seq<char>, Seq<char>>) -> ItemModel {
    match parsed {
        Ok(shown) => Ok(content_token(shown)),
        Err(why) => Err(ErrorModel::DeserializationStreamError(unreadable_text(why))),
    }
}

/// The stream elements for a list of payloads, each parsed as JSON.
pub open spec fn payload_items(list: Seq<Seq<char>>) -> Seq<ItemModel> {
    list.map_values(|payload: Seq<char>| parsed_item(parsed_json_debug(payload)))
}

/// The stream elements that the complete lines of `bytes` give.
pub open spec fn bytes_items(bytes: Seq<u8>) -> Seq<ItemModel> {
    payload_items(payloads(complete_lines(bytes)))
}

/// `a` has a line end, so the first line of `a + b` is the first line of `a`.
proof fn lemma_first_line_of_joined(a: Seq<u8>, b: Seq<u8>)
    requires
        a.contains(line_end()),
    ensures
        (a + b).contains(line_end()),
        before_first(a + b, line_end()) == before_first(a, line_end()),
        after_first(a + b, line_end()) == after_first(a, line_end()) + b,
{
    lemma_first_index(a, line_end());
    lemma_first_index_unique(a + b, line_end(), first_index(a, line_end()));
    lemma_first_index(a + b, line_end());
}

/// Bytes with a line end are more than what follows that line end.
proof fn lemma_rest_is_shorter(bytes: Seq<u8>)
    requires
        bytes.contains(line_end()),
    ensures
        after_first(bytes, line_end()).len() < bytes.len(),
{
    lemma_first_index(bytes, line_end());
}

/// The payloads of two lists of lines, one after the other.
pub proof fn lemma_payloads_concat(x: Seq<Seq<u8>>, y: Seq<Seq<u8>>)
    ensures
        payloads(x + y) == payloads(x) + payloads(y),
    decreases x.len(),
{
    if x.len() > 0 {
        assert((x + y).drop_first() =~= x.drop_first() + y);
        lemma_payloads_concat(x.drop_first(), y);
    }
}

/// Bytes that arrive in two pieces give the lines of the first piece and
/// then the lines of what the first piece left pending with the second
/// piece behind it; and they leave pending what that second step leaves.
pub proof fn lemma_lines_of_joined(a: Seq<u8>, b: Seq<u8>)
    ensures
        complete_lines(a + b) == complete_lines(a) + complete_lines(pending(a) + b),
        pending(a + b) == pending(pending(a) + b),
    decreases a.len(),
{
    if a.contains(line_end()) {
        lemma_first_line_of_joined(a, b);
        lemma_rest_is_shorter(a + b);
        lemma_lines_of_joined(after_first(a, line_end()), b);
    }
}

/// The stream elements of bytes that arrive in two pieces are those of the
/// first piece followed by those of what it left pending with the second
/// piece behind it, wherever the bytes are cut in two.
pub proof fn lemma_items_of_joined(a: Seq<u8>, b: Seq<u8>)
    ensures
        bytes_items(a + b) == bytes_items(a) + bytes_items(pending(a) + b),
        pending(a + b) == pending(pending(a) + b),
{
    lemma_lines_of_joined(a, b);
    lemma_payloads_concat(complete_lines(a), complete_lines(pending(a) + b));
}

/// What is pending holds no line end, so nothing more can be taken off it.
pub proof fn lemma_pending_has_no_line(bytes: Seq<u8>)
    ensures
        !pending(bytes).contains(line_end()),
        complete_lines(pending(bytes)) == Seq::<Seq<u8>>::empty(),
        pending(pending(bytes)) == pending(bytes),
    decreases bytes.len(),
{
    if bytes.contains(line_end()) {
        lemma_rest_is_shorter(bytes);
        lemma_pending_has_no_line(after_first(bytes, line_end()));
    }
}

/// The payload of one line, if it has one.
pub fn payload_of_line(line: &str) -> (r: Option<String>)
    ensures
        r is Some <==> line_payload(line@) is Some,
        r matches Some(payload) ==> line_payload(line@) == Some(payload@),
{
    let trimmed = trim(line);
    if trimmed.is_empty() || text_eq(trimmed, "data: [DONE]") {
        None
    } else {
        match strip_prefix(trimmed, "data: ") {
            Some(rest) => Some(rest.to_owned()),
            None => Some(trimmed.to_owned()),
        }
    }
}

/// The stream element for the outcome of parsing one payload.
pub fn token_for(parsed: Result<String, String>) -> (r: Result<StreamingToken, MCPError>)
    ensures
        item_model(r) == parsed_item(text_outcome(parsed)),
{
    match parsed {
        Ok(shown) => Ok(StreamingToken { content: shown, is_finish: false, metadata: None }),
        Err(why) => Err(
            MCPError::DeserializationStreamError(joined("Erro ao desserializar: ", why.as_str())),
        ),
    }
}

/// The token that closes a stream.
pub fn closing_token() -> (r: StreamingToken)
    ensures
        r@ == finish_token(),
{
    StreamingToken { content: String::new(), is_finish: true, metadata: None }
}

/// The bytes that a list of chunks delivers before its source fails: the
/// chunks in front of the first failure, one after the other.
pub open spec fn received_bytes(chunks: Seq<Result<Vec<u8>, String>>) -> Seq<u8>
    decreases chunks.len(),
{
    if chunks.len() == 0 {
        Seq::empty()
    } else {
        match chunks.first() {
            Ok(bytes) => bytes@ + received_bytes(chunks.drop_first()),
            Err(_) => Seq::empty(),
        }
    }
}

/// The detail of the first failure among the chunks, if the source failed.
pub open spec fn first_failure(chunks: Seq<Result<Vec<u8>, String>>) -> Option<Seq<char>>
    decreases chunks.len(),
{
    if chunks.len() == 0 {
        None
    } else {
        match chunks.first() {
            Ok(_) => first_failure(chunks.drop_first()),
            Err(detail) => Some(detail@),
        }
    }
}

/// How a stream ends: with the transport error if its source failed, and in
/// every case with the finish token.
pub open spec fn closing_items(failure: Option<Seq<char>>) -> Seq<ItemModel> {
    match failure {
        Some(detail) => seq![
            Err(ErrorModel::NetworkTransportError(transport_text(detail))),
            Ok(finish_token()),
        ],
        None => seq![Ok(finish_token())],
    }
}

/// The whole token stream for a list of chunks: the elements for the
/// complete lines of the bytes received before any failure, then the
/// failure if there was one, then the finish token.
pub open spec fn stream_items(chunks: Seq<Result<Vec<u8>, String>>) -> Seq<ItemModel> {
    bytes_items(received_bytes(chunks)) + closing_items(first_failure(chunks))
}

/// Chunks that arrived without failure, followed by further chunks: the
/// bytes received are those of the first followed by those of the rest, and
/// a failure can only be one of the rest.
pub proof fn lemma_received_after(
    front: Seq<Result<Vec<u8>, String>>,
    rest: Seq<Result<Vec<u8>, String>>,
)
    requires
        first_failure(front) is None,
    ensures
        received_bytes(front + rest) == received_bytes(front) + received_bytes(rest),
        first_failure(front + rest) == first_failure(rest),
    decreases front.len(),
{
    if front.len() > 0 {
        assert((front + rest).drop_first() =~= front.drop_first() + rest);
        lemma_received_after(front.drop_first(), rest);
    }
}

/// What a single chunk delivers.
proof fn lemma_one_chunk(chunk: Result<Vec<u8>, String>)
    ensures
        chunk matches Ok(bytes) ==> received_bytes(seq![chunk]) == bytes@ && first_failure(
            seq![chunk],
        ) is None,
        chunk matches Err(detail) ==> received_bytes(seq![chunk]) == Seq::<u8>::empty()
            && first_failure(seq![chunk]) == Some(detail@),
{
    let one = seq![chunk];
    assert(received_bytes(one.drop_first()) == Seq::<u8>::empty());
    assert(first_failure(one.drop_first()) is None);
}

/// Where the chunks are cut does not matter: two deliveries of the same
/// bytes that end in the same way give the same stream, be the bytes
/// delivered in one chunk, one by one, or cut anywhere else, inside a line
/// or inside a character.
pub proof fn lemma_chunking_does_not_matter(
    a: Seq<Result<Vec<u8>, String>>,
    b: Seq<Result<Vec<u8>, String>>,
)
    requires
        received_bytes(a) == received_bytes(b),
        first_failure(a) == first_failure(b),
    ensures
        stream_items(a) == stream_items(b),
{
}

/// Whether a stream element is a token with `is_finish` set.
pub open spec fn is_finish_item(item: ItemModel) -> bool {
    item matches Ok(token) && token.is_finish
}

/// Every stream has exactly one finish token, and that is its last element.
pub proof fn lemma_finish_is_last_and_only(chunks: Seq<Result<Vec<u8>, String>>)
    ensures
        stream_items(chunks).len() > 0,
        stream_items(chunks).last() == Ok::<TokenModel, ErrorModel>(finish_token()),
        forall|i: int|
            0 <= i < stream_items(chunks).len() - 1 ==> !is_finish_item(
                #[trigger] stream_items(chunks)[i],
            ),
{
}

/// The state of one stream between two chunks: the bytes of a line that has
/// begun and not ended, and whether the stream is over.
pub struct JsonStreamDecoder {
    buffer: Vec<u8>,
    finished: bool,
}

impl JsonStreamDecoder {
    /// What waits is the start of one line: it holds no line end. Once the
    /// stream is over, nothing waits.
    #[verifier::type_invariant]
    spec fn waits_for_line_end(&self) -> bool {
        &&& !self.buffer@.contains(line_end())
        &&& self.finished ==> self.buffer@.len() == 0
    }

    /// The bytes that wait for the rest of their line.
    pub closed spec fn pending_bytes(&self) -> Seq<u8> {
        self.buffer@
    }

    /// Whether the finish token has been given out.
    pub closed spec fn is_finished(&self) -> bool {
        self.finished
    }

    /// A decoder at the start of a stream.
    pub fn new() -> (r: Self)
        ensures
            r.pending_bytes() == Seq::<u8>::empty(),
            !r.is_finished(),
    {
        JsonStreamDecoder { buffer: Vec::new(), finished: false }
    }

    /// Whether the stream is over.
    pub fn finished(&self) -> (r: bool)
        ensures
            r == self.is_finished(),
    {
        self.finished
    }

    /// Takes a chunk in and hands out, in order, the payloads of the lines
    /// that it completed. Parsing them is left to the caller, who knows the
    /// shape to parse into. A line is read as text when it is complete: as
    /// UTF-8, a sequence that is none being replaced by U+FFFD. A finished
    /// decoder takes nothing in.
    pub fn accept_chunk(&mut self, chunk: &[u8]) -> (ready: Vec<String>)
        ensures
            final(self).is_finished() == old(self).is_finished(),
            !final(self).pending_bytes().contains(line_end()),
            old(self).is_finished() ==> ready@.len() == 0 && final(self).pending_bytes().len() == 0,
            !old(self).is_finished() ==> texts(ready@) == payloads(
                complete_lines(old(self).pending_bytes() + chunk@),
            ),
            !old(self).is_finished() ==> final(self).pending_bytes() == pending(
                old(self).pending_bytes() + chunk@,
            ),
    {
        proof {
            use_type_invariant(&*self);
        }
        let mut ready: Vec<String> = Vec::new();
        if self.finished {
            return ready;
        }
        let mut data: Vec<u8> = Vec::new();
        core::mem::swap(&mut self.buffer, &mut data);
        let ghost waited = data@;
        data.extend_from_slice(chunk);
        let ghost whole = data@;
        assert(whole =~= waited + chunk@);
        let mut start: usize = 0;
        let mut i: usize = 0;
        assert(whole.skip(0) =~= whole);
        while i < data.len()
            invariant
                start <= i <= data.len(),
                data@ == whole,
                forall|j: int| start <= j < i ==> whole[j] != line_end(),
                texts(ready@) + payloads(complete_lines(whole.skip(start as int))) == payloads(
                    complete_lines(whole),
                ),
                pending(whole.skip(start as int)) == pending(whole),
            decreases data.len() - i,
        {
            if data[i] == 0x0A {
                let line = decode_lossy(slice_subrange(data.as_slice(), start, i));
                proof {
                    let rest = whole.skip(start as int);
                    lemma_first_index_unique(rest, line_end(), i - start);
                    lemma_first_index(rest, line_end());
                    assert(before_first(rest, line_end()) =~= whole.subrange(
                        start as int,
                        i as int,
                    ));
                    assert(after_first(rest, line_end()) =~= whole.skip(i + 1));
                    assert(complete_lines(rest).drop_first() =~= complete_lines(
                        whole.skip(i + 1),
                    ));
                }
                if let Some(payload) = payload_of_line(line.as_str()) {
                    ready.push(payload);
                }
                start = i + 1;
            }
            i = i + 1;
        }
        self.buffer = slice_to_vec(slice_subrange(data.as_slice(), start, data.len()));
        ready
    }

    /// Takes a chunk in and hands out the stream elements for the lines that
    /// it completed, each payload parsed as a JSON value.
    pub fn push_chunk(&mut self, chunk: &[u8]) -> (out: Vec<Result<StreamingToken, MCPError>>)
        ensures
            final(self).is_finished() == old(self).is_finished(),
            !final(self).pending_bytes().contains(line_end()),
            old(self).is_finished() ==> out@.len() == 0 && final(self).pending_bytes().len() == 0,
            !old(self).is_finished() ==> stream_model(out@) == bytes_items(
                old(self).pending_bytes() + chunk@,
            ),
            !old(self).is_finished() ==> final(self).pending_bytes() == pending(
                old(self).pending_bytes() + chunk@,
            ),
    {
        let ready = self.accept_chunk(chunk);
        let mut out: Vec<Result<StreamingToken, MCPError>> = Vec::new();
        let mut i: usize = 0;
        while i < ready.len()
            invariant
                0 <= i <= ready.len(),
                stream_model(out@) == payload_items(texts(ready@).take(i as int)),
            decreases ready.len() - i,
        {
            out.push(token_for(parse_json_debug(ready[i].as_str())));
            proof {
                let list = texts(ready@);
                assert(payload_items(list.take(i + 1)) =~= payload_items(list.take(i as int)).push(
                    parsed_item(parsed_json_debug(list[i as int])),
                ));
            }
            i = i + 1;
        }
        out
    }

    /// Ends the stream and drops what was pending.
    fn close(&mut self)
        ensures
            final(self).is_finished(),
            final(self).pending_bytes().len() == 0,
    {
        *self = JsonStreamDecoder { buffer: Vec::new(), finished: true };
    }

    /// The source of the chunks has failed: hands out the transport error
    /// and the finish token, and the stream is over. What was pending is
    /// dropped.
    pub fn fail(&mut self, detail: &str) -> (out: Vec<Result<StreamingToken, MCPError>>)
        ensures
            final(self).is_finished(),
            final(self).pending_bytes().len() == 0,
            old(self).is_finished() ==> out@.len() == 0,
            !old(self).is_finished() ==> stream_model(out@) == closing_items(Some(detail@)),
    {
        proof {
            use_type_invariant(&*self);
        }
        let mut out: Vec<Result<StreamingToken, MCPError>> = Vec::new();
        if !self.finished {
            out.push(Err(MCPError::NetworkTransportError(joined("Erro de rede: ", detail))));
            out.push(Ok(closing_token()));
            self.close();
        }
        out
    }

    /// The source of the chunks is exhausted: hands out the finish token,
    /// and the stream is over. What was pending is dropped.
    pub fn finish(&mut self) -> (out: Vec<Result<StreamingToken, MCPError>>)
        ensures
            final(self).is_finished(),
            final(self).pending_bytes().len() == 0,
            old(self).is_finished() ==> out@.len() == 0,
            !old(self).is_finished() ==> stream_model(out@) == closing_items(None),
    {
        proof {
            use_type_invariant(&*self);
        }
        let mut out: Vec<Result<StreamingToken, MCPError>> = Vec::new();
        if !self.finished {
            out.push(Ok(closing_token()));
            self.close();
        }
        out
    }
}

/// Decodes a whole stream: the chunks as their source delivered them, a
/// failure of the source standing in the list as the text of its error.
/// Chunks behind the first failure are not read.
pub fn process_json_stream(chunks: &Vec<Result<Vec<u8>, String>>) -> (r: Result<
    Vec<Result<StreamingToken, MCPError>>,
    MCPError,
>)
    ensures
        r matches Ok(items) && stream_model(items@) == stream_items(chunks@),
{
    let mut decoder = JsonStreamDecoder::new();
    let mut items: Vec<Result<StreamingToken, MCPError>> = Vec::new();
    let mut i: usize = 0;
    while i < chunks.len()
        invariant
            0 <= i <= chunks.len(),
            !decoder.is_finished(),
            first_failure(chunks@.take(i as int)) is None,
            stream_model(items@) == bytes_items(received_bytes(chunks@.take(i as int))),
            decoder.pending_bytes() == pending(received_bytes(chunks@.take(i as int))),
        decreases chunks.len() - i,
    {
        let ghost front = chunks@.take(i as int);
        match &chunks[i] {
            Ok(bytes) => {
                let mut more = decoder.push_chunk(bytes.as_slice());
                proof {
                    let one = seq![chunks@[i as int]];
                    assert(chunks@.take(i + 1) =~= front + one);
                    lemma_one_chunk(chunks@[i as int]);
                    lemma_received_after(front, one);
                    lemma_items_of_joined(received_bytes(front), bytes@);
                }
                items.append(&mut more);
            },
            Err(detail) => {
                let mut more = decoder.fail(detail.as_str());
                proof {
                    let rest = chunks@.skip(i as int);
                    assert(chunks@ =~= front + rest);
                    lemma_received_after(front, rest);
                }
                items.append(&mut more);
                return Ok(items);
            },
        }
        i = i + 1;
    }
    let mut last = decoder.finish();
    proof {
        assert(chunks@.take(i as int) =~= chunks@);
    }
    items.append(&mut last);
    Ok(items)
}

} // verus!
