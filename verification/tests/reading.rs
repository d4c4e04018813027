use llm_loader::container::ContainerType;
use llm_loader::element::ElementType;
use llm_loader::error::LoadError;
use llm_loader::loader::Loader;
use llm_loader::progress::LoadProgress;
use llm_loader::tensors::TensorLoadInfo;

#[derive(Default, Debug, PartialEq)]
struct Hyperparameters {
    n_vocab: usize,
}

#[test]
fn new_loader_is_empty() {
    let loader: Loader<Hyperparameters> = Loader::new();
    assert_eq!(loader.container_type, ContainerType::Ggml);
    assert_eq!(loader.hyperparameters, Hyperparameters::default());
    assert!(loader.vocabulary.tokens.is_empty());
    assert_eq!(loader.tensors.len(), 0);
}

#[test]
fn container_type_is_taken() {
    let mut loader: Loader<Hyperparameters> = Loader::new();
    assert!(loader.container_type(ContainerType::Ggjt(3)).is_ok());
    assert_eq!(loader.container_type, ContainerType::Ggjt(3));
}

#[test]
fn tokens_are_taken_in_order() {
    let mut loader: Loader<Hyperparameters> = Loader::new();
    for (i, word) in ["a", "bc", ""].into_iter().enumerate() {
        let score = i as f32 / 2.0;
        assert!(loader.vocabulary_token(i, word.as_bytes().to_vec(), score.to_bits()).is_ok());
    }
    let tokens = &loader.vocabulary.tokens;
    assert_eq!(tokens.len(), 3);
    for (i, token) in tokens.iter().enumerate() {
        assert_eq!(token.id, i as i32);
        assert_eq!(f32::from_bits(token.score_bits), i as f32 / 2.0);
    }
    assert_eq!(tokens[1].content, b"bc".to_vec());
}

#[test]
fn token_numbers_have_to_fit() {
    let mut loader: Loader<Hyperparameters> = Loader::new();
    assert!(loader.vocabulary_token(i32::MAX as usize, Vec::new(), 0).is_ok());
    let refused = loader.vocabulary_token(i32::MAX as usize + 1, Vec::new(), 0);
    assert!(matches!(refused, Err(LoadError::InvalidIntegerConversion(_))));
    assert_eq!(loader.vocabulary.tokens.len(), 1);
}

#[test]
fn hyperparameters_are_taken_and_reported() {
    let mut loader: Loader<Hyperparameters> = Loader::new();
    let (partial, progress) =
        loader.read_hyperparameters(Ok((Hyperparameters { n_vocab: 32000 }, 32000))).unwrap();
    assert_eq!(partial.n_vocab, 32000);
    assert_eq!(progress, LoadProgress::HyperparametersLoaded);
    assert_eq!(loader.hyperparameters, Hyperparameters { n_vocab: 32000 });
}

#[test]
fn unreadable_hyperparameters_change_nothing() {
    let mut loader: Loader<Hyperparameters> = Loader::new();
    let refused = loader.read_hyperparameters(Err(LoadError::UnsupportedFileType(6)));
    assert!(matches!(refused, Err(LoadError::UnsupportedFileType(6))));
    assert_eq!(loader.hyperparameters, Hyperparameters::default());
}

#[test]
fn tensors_are_taken_by_name() {
    let mut loader: Loader<Hyperparameters> = Loader::new();
    for (name, offset) in [("a", 0), ("b", 10), ("a", 20)] {
        let info = TensorLoadInfo {
            name: name.to_string(),
            n_dims: 1,
            dims: vec![1],
            element_type: ElementType::F32,
            start_offset: offset,
        };
        assert!(loader.tensor_buffer(info).is_ok());
    }
    assert_eq!(loader.tensors.len(), 2);
    assert_eq!(loader.tensors.get("a").unwrap().start_offset, 20);
    assert_eq!(loader.tensors.get("b").unwrap().start_offset, 10);
}
