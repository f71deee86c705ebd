use wasmedge_nn::{
    Backend, BackendError, Dimension, Dtype, Engine, ExecutionTarget, GraphEncoding, Network,
    Target, Tensor,
};

/// An engine whose single output has a fixed length.
struct FixedEngine {
    output_len: usize,
    encodings: Vec<GraphEncoding>,
    builder_counts: Vec<usize>,
    fail_init: bool,
}

impl FixedEngine {
    fn new(output_len: usize) -> Self {
        FixedEngine { output_len, encodings: Vec::new(), builder_counts: Vec::new(), fail_init: false }
    }
}

impl Engine for FixedEngine {
    fn load(&mut self, builders: &[&[u8]], encoding: GraphEncoding, _t: ExecutionTarget) -> Result<u32, String> {
        self.encodings.push(encoding);
        self.builder_counts.push(builders.len());
        Ok(3)
    }

    fn init_execution_context(&mut self, graph: u32) -> Result<u32, String> {
        if self.fail_init {
            Err("BUSY (error)".to_string())
        } else {
            Ok(graph + 10)
        }
    }

    fn set_input(&mut self, _c: u32, _i: u32, _t: &Tensor) -> Result<(), String> {
        Ok(())
    }

    fn compute(&mut self, _c: u32) -> Result<(), String> {
        Ok(())
    }

    fn get_output(&mut self, _c: u32, _i: u32, _max: u32) -> Result<Vec<u8>, String> {
        Ok(vec![1; self.output_len])
    }
}

#[test]
fn network_loads_openvino_with_two_buffers() {
    let mut e = FixedEngine::new(12);
    let n = Network::init_openvino(&mut e, b"<xml/>", b"weights", Target::GPU).unwrap();
    assert_eq!(n.backend(), Backend::OpenVINO);
    assert_eq!(n.target(), ExecutionTarget::GPU);
    assert_eq!(e.encodings, vec![GraphEncoding::Openvino]);
    assert_eq!(e.builder_counts, vec![2]);
}

#[test]
fn network_init_failure() {
    let mut e = FixedEngine::new(12);
    e.fail_init = true;
    let r = Network::init_openvino(&mut e, b"<xml/>", b"weights", Target::CPU);
    assert!(matches!(r, Err(BackendError::ModelLoad(_))));
}

#[test]
fn network_infer_returns_output() {
    let mut e = FixedEngine::new(2 * 2 * 3 * 4);
    let n = Network::init_openvino(&mut e, b"x", b"w", Target::CPU).unwrap();
    let input = Tensor::new(Dtype::U8, &[1, 2, 2, 3], &[0; 12]);
    let out = n.infer(&mut e, &input, Dimension::new(2, 2, 3, Dtype::F32)).unwrap();
    assert_eq!(out, vec![1u8; 48]);
}

#[test]
fn network_infer_rejects_oversized_output() {
    let mut e = FixedEngine::new(13);
    let n = Network::init_openvino(&mut e, b"x", b"w", Target::CPU).unwrap();
    let input = Tensor::new(Dtype::U8, &[3], &[0; 3]);
    let r = n.infer(&mut e, &input, Dimension::new(2, 2, 3, Dtype::U8));
    assert!(matches!(r, Err(BackendError::NotEnoughMemory(13))));
}

#[test]
fn network_infer_rejects_inconsistent_input() {
    let mut e = FixedEngine::new(4);
    let n = Network::init_openvino(&mut e, b"x", b"w", Target::CPU).unwrap();
    let input = Tensor::new(Dtype::F32, &[3], &[0; 3]);
    let r = n.infer(&mut e, &input, Dimension::new(1, 1, 1, Dtype::F32));
    assert!(matches!(r, Err(BackendError::SetInput(_))));
}

#[test]
fn network_infer_rejects_unrepresentable_output_size() {
    let mut e = FixedEngine::new(4);
    let n = Network::init_openvino(&mut e, b"x", b"w", Target::CPU).unwrap();
    let input = Tensor::new(Dtype::U8, &[1], &[0]);
    let r = n.infer(&mut e, &input, Dimension::new(65536, 65536, 1, Dtype::U8));
    assert!(matches!(r, Err(BackendError::GetOutput(_))));
}
