//! Collecting the embeddings that an inference service streams back for a
//! batch of documents.

use vstd::prelude::*;

use crate::text::push_str;

verus! {

/// How the service is asked to scale each embedding.
#[derive(Clone, Copy, Debug, PartialEq, Eq)]
pub enum EmbeddingNormalizationMethod {
    /// To unit length in the Euclidean norm.
    L2,
}

/// A request for the embeddings of a batch of documents.
pub struct GenerateEmbeddingBatchParams<D> {
    pub input_batch: Vec<D>,
    pub normalization_method: EmbeddingNormalizationMethod,
}

/// The request sent for the embeddings of `documents`: all of them, in
/// order, as one batch, each embedding scaled to unit length.
pub fn embedding_batch_params<D>(documents: Vec<D>) -> (r: GenerateEmbeddingBatchParams<D>)
    ensures
        r.input_batch@ == documents@,
        r.normalization_method == EmbeddingNormalizationMethod::L2,
{
    GenerateEmbeddingBatchParams {
        input_batch: documents,
        normalization_method: EmbeddingNormalizationMethod::L2,
    }
}

/// One message of the embedding stream.
pub enum EmbeddingStreamEvent<E> {
    /// The embedding of the next document.
    Embedding(E),
    /// Every embedding was sent.
    Done,
    /// The service could not embed a document.
    EmbeddingError(String),
    /// A generated token, which an embedding request does not use.
    GeneratedToken,
    /// The request took too long.
    Timeout,
    /// The service has too many requests waiting.
    TooManyBufferedRequests,
    /// The service refused the request.
    ServiceError { description: String },
    /// The stream itself failed.
    TransportError(String),
}

/// What to do after a message of the stream.
#[derive(Debug)]
pub enum EmbeddingStreamStep {
    /// Wait for the next message.
    Continue,
    /// The embeddings are complete.
    Finished,
    /// Stop, with the reason.
    Failed(String),
}

/// The embeddings received so far.
pub struct EmbeddingCollector<E> {
    pub embeddings: Vec<E>,
}

impl<E> EmbeddingCollector<E> {
    /// A collector that has received nothing.
    pub fn new() -> (c: Self)
        ensures
            c.embeddings@ == Seq::<E>::empty(),
    {
        EmbeddingCollector { embeddings: Vec::new() }
    }

    /// Takes in the next message of the stream: an embedding is kept, after
    /// those before it; the end of the stream finishes; a generated token is
    /// passed over; anything else fails, with its reason.
    pub fn receive(&mut self, event: EmbeddingStreamEvent<E>) -> (step: EmbeddingStreamStep)
        ensures
            match event {
                EmbeddingStreamEvent::Embedding(e) => step is Continue
                    && final(self).embeddings@ == old(self).embeddings@.push(e),
                EmbeddingStreamEvent::Done => step is Finished && final(self).embeddings@ == old(
                    self,
                ).embeddings@,
                EmbeddingStreamEvent::GeneratedToken => step is Continue
                    && final(self).embeddings@ == old(self).embeddings@,
                EmbeddingStreamEvent::EmbeddingError(m) => step matches EmbeddingStreamStep::Failed(
                    r,
                ) && r@ == "Embedding error: "@ + m@ && final(self).embeddings@ == old(
                    self,
                ).embeddings@,
                EmbeddingStreamEvent::Timeout => step matches EmbeddingStreamStep::Failed(r) && r@
                    == "Embedding request timed out"@ && final(self).embeddings@ == old(
                    self,
                ).embeddings@,
                EmbeddingStreamEvent::TooManyBufferedRequests => step matches EmbeddingStreamStep::Failed(
                    r,
                ) && r@ == "Too many buffered requests"@ && final(self).embeddings@ == old(
                    self,
                ).embeddings@,
                EmbeddingStreamEvent::ServiceError { description } => step matches EmbeddingStreamStep::Failed(
                    r,
                ) && r@ == "Paddler error: "@ + description@ && final(self).embeddings@ == old(
                    self,
                ).embeddings@,
                EmbeddingStreamEvent::TransportError(m) => step matches EmbeddingStreamStep::Failed(
                    r,
                ) && r == m && final(self).embeddings@ == old(self).embeddings@,
            },
    {
        match event {
            EmbeddingStreamEvent::Embedding(e) => {
                self.embeddings.push(e);
                EmbeddingStreamStep::Continue
            },
            EmbeddingStreamEvent::Done => EmbeddingStreamStep::Finished,
            EmbeddingStreamEvent::GeneratedToken => EmbeddingStreamStep::Continue,
            EmbeddingStreamEvent::EmbeddingError(m) => {
                let mut r = String::from_str("Embedding error: ");
                push_str(&mut r, m.as_str());
                EmbeddingStreamStep::Failed(r)
            },
            EmbeddingStreamEvent::Timeout => EmbeddingStreamStep::Failed(
                String::from_str("Embedding request timed out"),
            ),
            EmbeddingStreamEvent::TooManyBufferedRequests => EmbeddingStreamStep::Failed(
                String::from_str("Too many buffered requests"),
            ),
            EmbeddingStreamEvent::ServiceError { description } => {
                let mut r = String::from_str("Paddler error: ");
                push_str(&mut r, description.as_str());
                EmbeddingStreamStep::Failed(r)
            },
            EmbeddingStreamEvent::TransportError(m) => EmbeddingStreamStep::Failed(m),
        }
    }
}

} // verus!
