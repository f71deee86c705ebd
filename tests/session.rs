use wasmedge_nn::{
    copy_output, Backend, BackendError, BackendRegistry, Engine, ExecutionTarget, Graph,
    GraphEncoding, GraphExecutionContext, Tensor, UsageError, WasiNnCtx, WasiNnError,
};

/// An engine that records what it was asked and answers from a script.
struct ScriptedEngine {
    loads: Vec<(Vec<Vec<u8>>, GraphEncoding, ExecutionTarget)>,
    inputs: Vec<(u32, u32, Tensor)>,
    computes: Vec<u32>,
    next_graph: u32,
    next_context: u32,
    output_len: usize,
    fail_load: bool,
    fail_init: bool,
    fail_set_input: bool,
    fail_compute: bool,
    fail_get_output: bool,
}

impl ScriptedEngine {
    fn new(output_len: usize) -> Self {
        ScriptedEngine {
            loads: Vec::new(),
            inputs: Vec::new(),
            computes: Vec::new(),
            next_graph: 100,
            next_context: 200,
            output_len,
            fail_load: false,
            fail_init: false,
            fail_set_input: false,
            fail_compute: false,
            fail_get_output: false,
        }
    }
}

impl Engine for ScriptedEngine {
    fn load(
        &mut self,
        builders: &[&[u8]],
        encoding: GraphEncoding,
        target: ExecutionTarget,
    ) -> Result<u32, String> {
        if self.fail_load {
            return Err("INVALID_ENCODING (error)".to_string());
        }
        self.loads.push((builders.iter().map(|b| b.to_vec()).collect(), encoding, target));
        self.next_graph += 1;
        Ok(self.next_graph - 1)
    }

    fn init_execution_context(&mut self, _graph: u32) -> Result<u32, String> {
        if self.fail_init {
            return Err("BUSY (error)".to_string());
        }
        self.next_context += 1;
        Ok(self.next_context - 1)
    }

    fn set_input(&mut self, context: u32, index: u32, tensor: &Tensor) -> Result<(), String> {
        if self.fail_set_input {
            return Err("INVALID_ARGUMENT (error)".to_string());
        }
        self.inputs.push((context, index, tensor.clone()));
        Ok(())
    }

    fn compute(&mut self, context: u32) -> Result<(), String> {
        if self.fail_compute {
            return Err("RUNTIME_ERROR (error)".to_string());
        }
        self.computes.push(context);
        Ok(())
    }

    fn get_output(&mut self, _context: u32, _index: u32, _max_len: u32) -> Result<Vec<u8>, String> {
        if self.fail_get_output {
            return Err("MISSING_MEMORY (error)".to_string());
        }
        // The output records how many inferences have run and the first input byte.
        let first = self.inputs.last().map(|(_, _, t)| t.data()[0]).unwrap_or(0);
        let mut out = vec![first; self.output_len];
        if self.output_len > 0 {
            out[0] = self.computes.len() as u8;
        }
        Ok(out)
    }
}

fn u8_tensor(value: u8) -> Tensor {
    Tensor::new(wasmedge_nn::Dtype::U8, &[2, 2], &[value; 4])
}

fn session(output_len: usize) -> WasiNnCtx<ScriptedEngine> {
    WasiNnCtx::new(ScriptedEngine::new(output_len))
}

#[test]
fn graph_handles_follow_call_order() {
    let mut s = session(4);
    for expected in 0..3u32 {
        let h = s
            .load_from_bytes(Some(b"xml"), b"bin", GraphEncoding::Openvino, ExecutionTarget::CPU)
            .unwrap();
        assert_eq!(h, Graph(expected));
    }
    assert_eq!(s.graph_count(), 3);
}

#[test]
fn execution_handles_follow_call_order() {
    let mut s = session(4);
    let g = s
        .load_from_bytes(Some(b"xml"), b"bin", GraphEncoding::Openvino, ExecutionTarget::CPU)
        .unwrap();
    for expected in 0..3u32 {
        assert_eq!(s.init_execution_context(g).unwrap(), GraphExecutionContext(expected));
    }
    assert_eq!(s.execution_count(), 3);
}

#[test]
fn failed_load_issues_no_handle() {
    let mut s = session(4);
    s.load_from_bytes(Some(b"a"), b"w", GraphEncoding::Openvino, ExecutionTarget::CPU).unwrap();
    let mut failing = ScriptedEngine::new(4);
    failing.fail_load = true;
    let mut f = WasiNnCtx::new(failing);
    let r = f.load_from_bytes(Some(b"a"), b"w", GraphEncoding::Openvino, ExecutionTarget::CPU);
    match r {
        Err(WasiNnError::BackendError(BackendError::ModelLoad(msg))) => {
            assert_eq!(msg, "INVALID_ENCODING (error)");
        }
        other => panic!("unexpected {:?}", other),
    }
    assert_eq!(f.graph_count(), 0);
}

#[test]
fn unknown_graph_handle_is_rejected() {
    let mut s = session(4);
    let r = s.init_execution_context(Graph(0));
    assert!(matches!(r, Err(WasiNnError::UsageError(UsageError::InvalidGraphHandle))));
    s.load_from_bytes(Some(b"a"), b"w", GraphEncoding::Openvino, ExecutionTarget::GPU).unwrap();
    for h in [1u32, 2, 7, u32::MAX] {
        let r = s.init_execution_context(Graph(h));
        assert!(matches!(r, Err(WasiNnError::UsageError(UsageError::InvalidGraphHandle))));
    }
    assert_eq!(s.execution_count(), 0);
}

#[test]
fn init_failure_is_a_model_load_error() {
    let mut engine = ScriptedEngine::new(4);
    engine.fail_init = true;
    let mut s = WasiNnCtx::new(engine);
    let g = s.load_from_bytes(Some(b"a"), b"w", GraphEncoding::Openvino, ExecutionTarget::CPU).unwrap();
    let r = s.init_execution_context(g);
    assert!(matches!(r, Err(WasiNnError::BackendError(BackendError::ModelLoad(_)))));
    assert_eq!(s.execution_count(), 0);
}

#[test]
fn unknown_execution_handle_is_rejected() {
    let mut s = session(4);
    let mut buf = [0u8; 4];
    let c = GraphExecutionContext(0);
    assert!(matches!(
        s.set_input(c, 0, u8_tensor(1)),
        Err(WasiNnError::UsageError(UsageError::InvalidExecutionContextHandle))
    ));
    assert!(matches!(
        s.compute(c),
        Err(WasiNnError::UsageError(UsageError::InvalidExecutionContextHandle))
    ));
    assert!(matches!(
        s.get_output(c, 0, &mut buf),
        Err(WasiNnError::UsageError(UsageError::InvalidExecutionContextHandle))
    ));
    assert!(s.engine().inputs.is_empty());
    assert!(s.engine().computes.is_empty());
}

#[test]
fn graph_handle_is_not_an_execution_handle() {
    let mut s = session(4);
    let g = s.load_from_bytes(Some(b"a"), b"w", GraphEncoding::Openvino, ExecutionTarget::CPU).unwrap();
    assert_eq!(g, Graph(0));
    // No execution context exists yet, so handle 0 names nothing in that table.
    assert!(matches!(
        s.compute(GraphExecutionContext(g.0)),
        Err(WasiNnError::UsageError(UsageError::InvalidExecutionContextHandle))
    ));
}

#[test]
fn short_destination_gets_capacity_error_and_no_bytes() {
    let mut s = session(8);
    let g = s.load_from_bytes(Some(b"a"), b"w", GraphEncoding::Openvino, ExecutionTarget::CPU).unwrap();
    let c = s.init_execution_context(g).unwrap();
    s.set_input(c, 0, u8_tensor(9)).unwrap();
    s.compute(c).unwrap();
    let mut buf = [0xAAu8; 4];
    let r = s.get_output(c, 0, &mut buf);
    assert!(matches!(r, Err(WasiNnError::BackendError(BackendError::NotEnoughMemory(8)))));
    assert_eq!(buf, [0xAA; 4]);
}

#[test]
fn longer_destination_keeps_its_tail() {
    let mut s = session(3);
    let g = s.load_from_bytes(Some(b"a"), b"w", GraphEncoding::Openvino, ExecutionTarget::CPU).unwrap();
    let c = s.init_execution_context(g).unwrap();
    s.set_input(c, 0, u8_tensor(9)).unwrap();
    s.compute(c).unwrap();
    let mut buf = [0xAAu8; 5];
    assert_eq!(s.get_output(c, 0, &mut buf).unwrap(), 3);
    assert_eq!(buf, [1, 9, 9, 0xAA, 0xAA]);
}

#[test]
fn openvino_encoding_goes_to_openvino_backend() {
    let mut s = session(4);
    s.load_from_bytes(Some(b"arch"), b"weights", GraphEncoding::Openvino, ExecutionTarget::CPU)
        .unwrap();
    let loads = &s.engine().loads;
    assert_eq!(loads.len(), 1);
    assert_eq!(loads[0].0, vec![b"arch".to_vec(), b"weights".to_vec()]);
    assert_eq!(loads[0].1, GraphEncoding::Openvino);
    assert_eq!(loads[0].2, ExecutionTarget::CPU);
}

#[test]
fn pytorch_backend_takes_weights_only() {
    let mut s = session(4);
    s.load_from_bytes(Some(b"ignored"), b"model", GraphEncoding::Pytorch, ExecutionTarget::TPU)
        .unwrap();
    s.load_from_bytes(None, b"model2", GraphEncoding::Pytorch, ExecutionTarget::GPU).unwrap();
    let loads = &s.engine().loads;
    assert_eq!(loads[0].0, vec![b"model".to_vec()]);
    assert_eq!(loads[0].1, GraphEncoding::Pytorch);
    assert_eq!(loads[0].2, ExecutionTarget::TPU);
    assert_eq!(loads[1].0, vec![b"model2".to_vec()]);
}

#[test]
fn openvino_without_architecture_is_a_model_load_error() {
    let mut s = session(4);
    let r = s.load_from_bytes(None, b"weights", GraphEncoding::Openvino, ExecutionTarget::CPU);
    assert!(matches!(r, Err(WasiNnError::BackendError(BackendError::ModelLoad(_)))));
    assert_eq!(s.graph_count(), 0);
    assert!(s.engine().loads.is_empty());
}

#[test]
fn unregistered_encoding_is_rejected() {
    let registry = BackendRegistry::new(vec![Backend::OpenVINO]);
    let mut s = WasiNnCtx::with_registry(ScriptedEngine::new(4), registry);
    let r = s.load_from_bytes(Some(b"a"), b"w", GraphEncoding::Pytorch, ExecutionTarget::CPU);
    assert!(matches!(
        r,
        Err(WasiNnError::UsageError(UsageError::InvalidEncoding(GraphEncoding::Pytorch)))
    ));
    assert_eq!(s.graph_count(), 0);
    assert!(s.engine().loads.is_empty());
    // The registered encoding still loads.
    assert_eq!(
        s.load_from_bytes(Some(b"a"), b"w", GraphEncoding::Openvino, ExecutionTarget::CPU)
            .unwrap(),
        Graph(0)
    );
}

#[test]
fn registry_resolves_exact_names_only() {
    let all = BackendRegistry::with_all_backends();
    assert_eq!(all.resolve("openvino"), Some(Backend::OpenVINO));
    assert_eq!(all.resolve("pytorch"), Some(Backend::PyTorch));
    assert_eq!(all.resolve("onnx"), None);
    assert_eq!(all.resolve("OpenVINO"), None);
    assert_eq!(all.resolve("openvin"), None);
    assert_eq!(all.resolve(""), None);
    let empty = BackendRegistry::new(Vec::new());
    assert_eq!(empty.resolve("openvino"), None);
}

#[test]
fn encoding_and_backend_names() {
    assert_eq!(GraphEncoding::Openvino.to_string(), "openvino");
    assert_eq!(GraphEncoding::Pytorch.to_string(), "pytorch");
    assert_eq!(Backend::OpenVINO.name(), "openvino");
    assert_eq!(Backend::PyTorch.name(), "pytorch");
    assert_eq!(Backend::OpenVINO.encoding(), GraphEncoding::Openvino);
    assert_eq!(Backend::PyTorch.encoding(), GraphEncoding::Pytorch);
}

#[test]
fn backend_builders() {
    let b = Backend::OpenVINO.builders(Some(b"x"), b"w").unwrap();
    assert_eq!(b, vec![&b"x"[..], &b"w"[..]]);
    assert!(Backend::OpenVINO.builders(None, b"w").is_none());
    let t = Backend::PyTorch.builders(Some(b"x"), b"w").unwrap();
    assert_eq!(t, vec![&b"w"[..]]);
}

#[test]
fn context_reuse_reflects_latest_compute() {
    let mut s = session(4);
    let g = s.load_from_bytes(Some(b"a"), b"w", GraphEncoding::Openvino, ExecutionTarget::CPU).unwrap();
    let c = s.init_execution_context(g).unwrap();
    let mut buf = [0u8; 4];
    s.set_input(c, 0, u8_tensor(5)).unwrap();
    s.compute(c).unwrap();
    assert_eq!(s.get_output(c, 0, &mut buf).unwrap(), 4);
    assert_eq!(buf, [1, 5, 5, 5]);
    s.set_input(c, 0, u8_tensor(7)).unwrap();
    s.compute(c).unwrap();
    assert_eq!(s.get_output(c, 0, &mut buf).unwrap(), 4);
    assert_eq!(buf, [2, 7, 7, 7]);
    assert_eq!(s.engine().computes, vec![200, 200]);
}

#[test]
fn end_to_end_openvino_session() {
    let arch = vec![b'<'; 64];
    let weights = vec![7u8; 256];
    let output_len = 1001 * 4;
    let mut s = session(output_len);
    let g = s
        .load_from_bytes(Some(&arch), &weights, GraphEncoding::Openvino, ExecutionTarget::CPU)
        .unwrap();
    assert_eq!(g, Graph(0));
    let c = s.init_execution_context(g).unwrap();
    assert_eq!(c, GraphExecutionContext(0));
    let data = vec![1u8; 150528 * 4];
    let tensor = Tensor::new(wasmedge_nn::Dtype::F32, &[1, 3, 224, 224], &data);
    assert!(tensor.has_consistent_len());
    assert!(s.set_input(c, 0, tensor).is_ok());
    assert!(s.compute(c).is_ok());
    let mut out = vec![0u8; output_len];
    assert_eq!(s.get_output(c, 0, &mut out).unwrap(), output_len as u32);
}

#[test]
fn inconsistent_tensor_never_reaches_engine() {
    let mut s = session(4);
    let g = s.load_from_bytes(Some(b"a"), b"w", GraphEncoding::Openvino, ExecutionTarget::CPU).unwrap();
    let c = s.init_execution_context(g).unwrap();
    let short = Tensor::new(wasmedge_nn::Dtype::F32, &[1, 3, 2, 2], &[0u8; 47]);
    let r = s.set_input(c, 0, short);
    assert!(matches!(r, Err(WasiNnError::BackendError(BackendError::SetInput(_)))));
    assert!(s.engine().inputs.is_empty());
}

#[test]
fn engine_failures_map_to_stage_errors() {
    let mut engine = ScriptedEngine::new(4);
    engine.fail_set_input = true;
    engine.fail_compute = true;
    engine.fail_get_output = true;
    let mut s = WasiNnCtx::new(engine);
    let g = s.load_from_bytes(Some(b"a"), b"w", GraphEncoding::Openvino, ExecutionTarget::CPU).unwrap();
    let c = s.init_execution_context(g).unwrap();
    match s.set_input(c, 0, u8_tensor(1)) {
        Err(WasiNnError::BackendError(BackendError::SetInput(m))) => assert_eq!(m, "INVALID_ARGUMENT (error)"),
        other => panic!("unexpected {:?}", other),
    }
    match s.compute(c) {
        Err(WasiNnError::BackendError(BackendError::Compute(m))) => assert_eq!(m, "RUNTIME_ERROR (error)"),
        other => panic!("unexpected {:?}", other),
    }
    let mut buf = [3u8; 4];
    match s.get_output(c, 0, &mut buf) {
        Err(WasiNnError::BackendError(BackendError::GetOutput(m))) => assert_eq!(m, "MISSING_MEMORY (error)"),
        other => panic!("unexpected {:?}", other),
    }
    assert_eq!(buf, [3; 4]);
}

#[test]
fn copy_output_fits_or_refuses() {
    let mut dest = [0u8; 4];
    assert_eq!(copy_output(&[1, 2], &mut dest).unwrap(), 2);
    assert_eq!(dest, [1, 2, 0, 0]);
    assert_eq!(copy_output(&[5, 6, 7, 8], &mut dest).unwrap(), 4);
    assert_eq!(dest, [5, 6, 7, 8]);
    assert!(matches!(copy_output(&[1, 2, 3, 4, 5], &mut dest), Err(BackendError::NotEnoughMemory(5))));
    assert_eq!(dest, [5, 6, 7, 8]);
    let mut empty: [u8; 0] = [];
    assert_eq!(copy_output(&[], &mut empty).unwrap(), 0);
    assert!(matches!(copy_output(&[1], &mut empty), Err(BackendError::NotEnoughMemory(1))));
}

#[test]
fn failed_loads_between_successes_leave_no_gaps() {
    let mut s = session(4);
    assert_eq!(
        s.load_from_bytes(Some(b"a"), b"w", GraphEncoding::Openvino, ExecutionTarget::CPU).unwrap(),
        Graph(0)
    );
    assert!(s.load_from_bytes(None, b"w", GraphEncoding::Openvino, ExecutionTarget::CPU).is_err());
    assert!(s.init_execution_context(Graph(5)).is_err());
    assert_eq!(
        s.load_from_bytes(None, b"w", GraphEncoding::Pytorch, ExecutionTarget::CPU).unwrap(),
        Graph(1)
    );
    assert_eq!(s.init_execution_context(Graph(1)).unwrap(), GraphExecutionContext(0));
    assert_eq!(
        s.load_from_bytes(Some(b"a"), b"w", GraphEncoding::Openvino, ExecutionTarget::GPU).unwrap(),
        Graph(2)
    );
    assert_eq!(s.init_execution_context(Graph(0)).unwrap(), GraphExecutionContext(1));
}
