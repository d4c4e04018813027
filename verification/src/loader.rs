//! What is gathered while a model file is read.

use crate::container::ContainerType;
use crate::error::LoadError;
use crate::progress::LoadProgress;
use crate::tensors::{TensorLoadInfo, TensorTable};
use vstd::prelude::*;

verus! {

/// The identifier of a token in a vocabulary.
pub type TokenId = i32;

/// A token of a vocabulary.
#[derive(Debug)]
pub struct VocabularyToken {
    /// The identifier of the token.
    pub id: TokenId,
    /// The bytes of the token.
    pub content: Vec<u8>,
    /// The bit pattern of the token's score, a 32-bit floating point number.
    pub score_bits: u32,
}

/// The vocabulary of a model: its tokens in the order in which they were read.
#[derive(Debug)]
pub struct Vocabulary {
    /// The tokens.
    pub tokens: Vec<VocabularyToken>,
}

/// Every token's identifier is its place in the vocabulary.
pub open spec fn ids_are_places(tokens: Seq<VocabularyToken>) -> bool {
    forall|i: int| 0 <= i < tokens.len() ==> (#[trigger] tokens[i]).id == i
}

impl Vocabulary {
    /// A vocabulary without tokens.
    pub fn new() -> (vocabulary: Self)
        ensures
            vocabulary.tokens@ == Seq::<VocabularyToken>::empty(),
    {
        Vocabulary { tokens: Vec::new() }
    }

    /// Adds a token at the end of the vocabulary.
    pub fn push_token(&mut self, id: TokenId, content: Vec<u8>, score_bits: u32)
        ensures
            final(self).tokens@ == old(self).tokens@.push(
                VocabularyToken { id, content, score_bits },
            ),
    {
        self.tokens.push(VocabularyToken { id, content, score_bits });
    }
}

/// What has to be known of a model's hyperparameters to go on reading its file.
#[derive(Debug)]
pub struct PartialHyperparameters {
    /// The number of tokens in the model's vocabulary.
    pub n_vocab: usize,
}

/// A GGML format loader for LLMs, with `Hp` for the hyperparameters of the model.
#[derive(Debug)]
pub struct Loader<Hp> {
    /// The container type of the model.
    pub container_type: ContainerType,
    /// The hyperparameters of the model.
    pub hyperparameters: Hp,
    /// The vocabulary of the model.
    pub vocabulary: Vocabulary,
    /// The tensors of the model.
    pub tensors: TensorTable,
}

impl<Hp: Default> Loader<Hp> {
    /// Creates a new loader.
    pub fn new() -> (loader: Self)
        ensures
            loader.container_type == ContainerType::Ggml,
            call_ensures(Hp::default, (), loader.hyperparameters),
            loader.vocabulary.tokens@ == Seq::<VocabularyToken>::empty(),
            loader.tensors.as_map() == Map::<Seq<char>, TensorLoadInfo>::empty(),
            loader.tensors@ == Seq::<TensorLoadInfo>::empty(),
    {
        Loader {
            container_type: ContainerType::Ggml,
            hyperparameters: Hp::default(),
            vocabulary: Vocabulary::new(),
            tensors: TensorTable::new(),
        }
    }
}

impl<Hp> Loader<Hp> {
    /// Takes the container type of the file.
    pub fn container_type(&mut self, container_type: ContainerType) -> (taken: Result<
        (),
        LoadError,
    >)
        ensures
            taken is Ok,
            final(self).container_type == container_type,
            final(self).hyperparameters == old(self).hyperparameters,
            final(self).vocabulary == old(self).vocabulary,
            final(self).tensors == old(self).tensors,
    {
        self.container_type = container_type;
        Ok(())
    }

    /// Takes the token with the number `i`; `score_bits` is the bit pattern of its score. The
    /// number has to be one that a [`TokenId`] can hold.
    pub fn vocabulary_token(&mut self, i: usize, token: Vec<u8>, score_bits: u32) -> (taken: Result<
        (),
        LoadError,
    >)
        ensures
            taken is Ok <==> i <= TokenId::MAX,
            taken is Ok ==> final(self).vocabulary.tokens@ == old(self).vocabulary.tokens@.push(
                VocabularyToken { id: i as TokenId, content: token, score_bits },
            ),
            taken matches Err(error) ==> error is InvalidIntegerConversion && *final(self) == *old(
                self,
            ),
            final(self).container_type == old(self).container_type,
            final(self).hyperparameters == old(self).hyperparameters,
            final(self).tensors == old(self).tensors,
    {
        let id: TokenId = match TokenId::try_from(i) {
            Ok(id) => id,
            Err(err) => return Err(LoadError::InvalidIntegerConversion(err)),
        };
        self.vocabulary.push_token(id, token, score_bits);
        Ok(())
    }

    /// Takes the hyperparameters that were read, together with the size of the vocabulary that
    /// they give, or the failure to read them. The progress that comes back is to be reported.
    pub fn read_hyperparameters(&mut self, read: Result<(Hp, usize), LoadError>) -> (taken: Result<
        (PartialHyperparameters, LoadProgress),
        LoadError,
    >)
        ensures
            match read {
                Ok((hyperparameters, n_vocab)) => {
                    &&& taken == Ok::<_, LoadError>(
                        (PartialHyperparameters { n_vocab }, LoadProgress::HyperparametersLoaded),
                    )
                    &&& final(self).hyperparameters == hyperparameters
                    &&& final(self).container_type == old(self).container_type
                    &&& final(self).vocabulary == old(self).vocabulary
                    &&& final(self).tensors == old(self).tensors
                },
                Err(error) => taken == Err::<(PartialHyperparameters, LoadProgress), _>(error)
                    && *final(self) == *old(self),
            },
    {
        match read {
            Ok((hyperparameters, n_vocab)) => {
                self.hyperparameters = hyperparameters;
                Ok((PartialHyperparameters { n_vocab }, LoadProgress::HyperparametersLoaded))
            },
            Err(error) => Err(error),
        }
    }

    /// Takes the info of a tensor, in place of an earlier one of the same name.
    pub fn tensor_buffer(&mut self, info: TensorLoadInfo) -> (taken: Result<(), LoadError>)
        ensures
            taken is Ok,
            final(self).tensors.as_map() == old(self).tensors.as_map().insert(info.name@, info),
            final(self).tensors@.contains(info),
            forall|i: int|
                0 <= i < old(self).tensors@.len() && (#[trigger] old(self).tensors@[i]).name@
                    != info.name@ ==> final(self).tensors@.contains(old(self).tensors@[i]),
            forall|i: int|
                0 <= i < final(self).tensors@.len() ==> (#[trigger] final(self).tensors@[i]) == info
                    || old(self).tensors@.contains(final(self).tensors@[i]),
            crate::tensors::names_distinct(final(self).tensors@),
            final(self).container_type == old(self).container_type,
            final(self).hyperparameters == old(self).hyperparameters,
            final(self).vocabulary == old(self).vocabulary,
    {
        self.tensors.insert(info);
        Ok(())
    }
}

/// Where tokens are taken in the order of their numbers, every token's identifier stays its
/// place in the vocabulary.
pub proof fn ids_stay_places(tokens: Seq<VocabularyToken>, token: VocabularyToken)
    requires
        ids_are_places(tokens),
        token.id == tokens.len(),
    ensures
        ids_are_places(tokens.push(token)),
{
}

/// What the loader holds under a name after a number of tensors is the last info with that
/// name: taking one more tensor keeps the infos by name those of all the tensors taken.
pub proof fn last_info_of_a_name_counts(taken: Seq<TensorLoadInfo>, info: TensorLoadInfo)
    ensures
        crate::tensors::by_name(taken.push(info)) == crate::tensors::by_name(taken).insert(
            info.name@,
            info,
        ),
{
    assert(taken.push(info).drop_last() =~= taken);
}

/// A new loader has gathered nothing.
pub proof fn new_loaders_are_empty<Hp: Default>(loader: Loader<Hp>)
    requires
        call_ensures(Loader::<Hp>::new, (), loader),
    ensures
        loader.container_type == ContainerType::Ggml,
        call_ensures(Hp::default, (), loader.hyperparameters),
        loader.vocabulary.tokens@.len() == 0,
        loader.tensors@.len() == 0,
{
}

/// A container type is taken whatever it is, in place of the one before, and nothing else
/// changes.
pub proof fn container_types_are_taken<Hp>(
    loader: &mut Loader<Hp>,
    container_type: ContainerType,
    taken: Result<(), LoadError>,
)
    requires
        call_ensures(Loader::<Hp>::container_type, (loader, container_type), taken),
    ensures
        taken is Ok,
        final(loader).container_type == container_type,
        final(loader).hyperparameters == old(loader).hyperparameters,
        final(loader).vocabulary == old(loader).vocabulary,
        final(loader).tensors == old(loader).tensors,
{
}

/// A token is taken exactly where its number is below two to the 31st power: it comes behind
/// all the others, with its number, its bytes and its score. Any other one changes nothing.
pub proof fn tokens_are_taken<Hp>(
    loader: &mut Loader<Hp>,
    i: usize,
    token: Vec<u8>,
    score_bits: u32,
    taken: Result<(), LoadError>,
)
    requires
        call_ensures(Loader::<Hp>::vocabulary_token, (loader, i, token, score_bits), taken),
    ensures
        taken is Ok <==> i < 0x8000_0000,
        taken is Ok ==> {
            let before = old(loader).vocabulary.tokens@;
            let after = final(loader).vocabulary.tokens@;
            &&& after.len() == before.len() + 1
            &&& forall|j: int| 0 <= j < before.len() ==> #[trigger] after[j] == before[j]
            &&& after.last().id == i
            &&& after.last().content == token
            &&& after.last().score_bits == score_bits
        },
        taken matches Err(error) ==> error is InvalidIntegerConversion && *final(loader) == *old(
            loader,
        ),
        final(loader).container_type == old(loader).container_type,
        final(loader).hyperparameters == old(loader).hyperparameters,
        final(loader).tensors == old(loader).tensors,
{
}

/// A vocabulary starts empty, and a token comes behind all the others.
pub proof fn vocabularies_grow(
    empty: Vocabulary,
    vocabulary: &mut Vocabulary,
    id: TokenId,
    content: Vec<u8>,
    score_bits: u32,
)
    requires
        call_ensures(Vocabulary::new, (), empty),
        call_ensures(Vocabulary::push_token, (vocabulary, id, content, score_bits), ()),
    ensures
        empty.tokens@.len() == 0,
        final(vocabulary).tokens@.len() == old(vocabulary).tokens@.len() + 1,
        final(vocabulary).tokens@.drop_last() == old(vocabulary).tokens@,
        final(vocabulary).tokens@.last().id == id,
        final(vocabulary).tokens@.last().content == content,
        final(vocabulary).tokens@.last().score_bits == score_bits,
{
    assert(final(vocabulary).tokens@.drop_last() =~= old(vocabulary).tokens@);
}

/// Hyperparameters that were read are taken, and the size of the vocabulary that they give comes
/// back with the report that they are loaded. A failure to read them comes back as it is and
/// changes nothing.
pub proof fn hyperparameters_are_taken<Hp>(
    loader: &mut Loader<Hp>,
    read: Result<(Hp, usize), LoadError>,
    taken: Result<(PartialHyperparameters, LoadProgress), LoadError>,
)
    requires
        call_ensures(Loader::<Hp>::read_hyperparameters, (loader, read), taken),
    ensures
        read matches Err(error) ==> (taken matches Err(back) && back == error) && *final(loader)
            == *old(loader),
        read matches Ok((hyperparameters, n_vocab)) ==> {
            &&& taken matches Ok((partial, progress)) && partial.n_vocab == n_vocab && progress
                == LoadProgress::HyperparametersLoaded
            &&& final(loader).hyperparameters == hyperparameters
            &&& final(loader).container_type == old(loader).container_type
            &&& final(loader).vocabulary == old(loader).vocabulary
            &&& final(loader).tensors == old(loader).tensors
        },
{
}

/// A tensor is taken whatever it is: it is found under its name from then on, and what is found
/// under any other name stays.
pub proof fn tensors_are_taken<Hp>(
    loader: &mut Loader<Hp>,
    info: TensorLoadInfo,
    name: &str,
    found: Option<&TensorLoadInfo>,
    taken: Result<(), LoadError>,
)
    requires
        call_ensures(TensorTable::get, (&old(loader).tensors, name), found),
        call_ensures(Loader::<Hp>::tensor_buffer, (loader, info), taken),
    ensures
        taken is Ok,
        forall|now: Option<&TensorLoadInfo>| #[trigger]
            call_ensures(TensorTable::get, (&final(loader).tensors, name), now) ==> (if name@
                == info.name@ {
                now == Some(&info)
            } else {
                now == found
            }),
        final(loader).container_type == old(loader).container_type,
        final(loader).hyperparameters == old(loader).hyperparameters,
        final(loader).vocabulary == old(loader).vocabulary,
{
}

} // verus!
