use vstd::prelude::*;
use crate::simple_rng::SimpleRng;
use crate::simple_rng::lcg_state;

verus! {

/// The fixed seed of the initialization draws; reproducibility across
/// runs is a design requirement, so it is not caller-configurable.
pub const INIT_SEED: u64 = 42;

/// The value of the `k`-th draw (counting from 1) of a generator
/// seeded with `INIT_SEED`.
pub open spec fn init_draw(k: nat) -> int {
    lcg_state(INIT_SEED as int, k)
}

/// The raw 32-bit draws that deterministic initialization assigns to
/// the parameters of a network with `hidden_size` hidden units and
/// `input_size` inputs, laid out in their parameter positions.
pub struct RawParams {
    /// Row `i`, column `j`: the draw for the weight from input feature
    /// `j` to hidden unit `i`.
    pub weights_input_hidden: Vec<Vec<u32>>,
    /// Entry `i`: the draw for the bias of hidden unit `i`.
    pub bias_hidden: Vec<u32>,
    /// Entry `i`: the draw for the weight from hidden unit `i` to the
    /// single output unit.
    pub weights_hidden_output: Vec<u32>,
    /// The draw for the bias of the output unit.
    pub bias_output: u32,
}

/// `p` holds exactly the draws of a generator seeded with `INIT_SEED`,
/// in the fixed order: for each hidden unit `i` in increasing order,
/// one draw per input weight (increasing `j`) and then one for its
/// bias; after all hidden units, one draw per hidden-to-output weight
/// (increasing `i`); finally one draw for the output bias.
pub open spec fn initialized_params(p: RawParams, input_size: int, hidden_size: int) -> bool {
    &&& p.weights_input_hidden@.len() == hidden_size
    &&& p.bias_hidden@.len() == hidden_size
    &&& p.weights_hidden_output@.len() == hidden_size
    &&& forall|i: int|
        0 <= i < hidden_size ==> (#[trigger] p.weights_input_hidden@[i])@.len() == input_size
    &&& forall|i: int, j: int|
        0 <= i < hidden_size && 0 <= j < input_size ==> #[trigger] p.weights_input_hidden@[i]@[j]
            == init_draw((i * (input_size + 1) + j + 1) as nat)
    &&& forall|i: int|
        0 <= i < hidden_size ==> #[trigger] p.bias_hidden@[i] == init_draw(
            (i * (input_size + 1) + input_size + 1) as nat,
        )
    &&& forall|i: int|
        0 <= i < hidden_size ==> #[trigger] p.weights_hidden_output@[i] == init_draw(
            (hidden_size * (input_size + 1) + i + 1) as nat,
        )
    &&& p.bias_output == init_draw((hidden_size * (input_size + 1) + hidden_size + 1) as nat)
}

/// Draws every initialization value in the fixed order and places it
/// in its parameter position.
#[verifier::loop_isolation(false)]
pub fn initial_params(input_size: usize, hidden_size: usize) -> (p: RawParams)
    ensures
        initialized_params(p, input_size as int, hidden_size as int),
{
    let mut rng = SimpleRng::new(INIT_SEED);
    let mut weights_input_hidden: Vec<Vec<u32>> = Vec::new();
    let mut bias_hidden: Vec<u32> = Vec::new();
    for i in 0..hidden_size
        invariant
            weights_input_hidden@.len() == i,
            bias_hidden@.len() == i,
            0 <= rng.state() < 0x1_0000_0000,
            rng.state() == lcg_state(INIT_SEED as int, (i * (input_size + 1)) as nat),
            forall|ii: int|
                0 <= ii < i ==> (#[trigger] weights_input_hidden@[ii])@.len() == input_size,
            forall|ii: int, jj: int|
                0 <= ii < i && 0 <= jj < input_size ==> #[trigger] weights_input_hidden@[ii]@[jj]
                    == init_draw((ii * (input_size + 1) + jj + 1) as nat),
            forall|ii: int|
                0 <= ii < i ==> #[trigger] bias_hidden@[ii] == init_draw(
                    (ii * (input_size + 1) + input_size + 1) as nat,
                ),
    {
        let mut row: Vec<u32> = Vec::new();
        for j in 0..input_size
            invariant
                row@.len() == j,
                0 <= rng.state() < 0x1_0000_0000,
                rng.state() == lcg_state(INIT_SEED as int, (i * (input_size + 1) + j) as nat),
                forall|jj: int|
                    0 <= jj < j ==> #[trigger] row@[jj] == init_draw(
                        (i * (input_size + 1) + jj + 1) as nat,
                    ),
        {
            let d = rng.next_u32();
            row.push(d);
        }
        let b = rng.next_u32();
        weights_input_hidden.push(row);
        bias_hidden.push(b);
        proof {
            assert((i + 1) * (input_size + 1) == i * (input_size + 1) + input_size + 1)
                by (nonlinear_arith);
        }
    }
    let mut weights_hidden_output: Vec<u32> = Vec::new();
    for i in 0..hidden_size
        invariant
            weights_hidden_output@.len() == i,
            0 <= rng.state() < 0x1_0000_0000,
            rng.state() == lcg_state(
                INIT_SEED as int,
                (hidden_size * (input_size + 1) + i) as nat,
            ),
            forall|ii: int|
                0 <= ii < i ==> #[trigger] weights_hidden_output@[ii] == init_draw(
                    (hidden_size * (input_size + 1) + ii + 1) as nat,
                ),
    {
        let w = rng.next_u32();
        weights_hidden_output.push(w);
    }
    let bias_output = rng.next_u32();
    RawParams { weights_input_hidden, bias_hidden, weights_hidden_output, bias_output }
}

/// Determinism of initialization: two parameter sets drawn for the
/// same dimensions are identical in every entry.
pub proof fn lemma_initialization_deterministic(
    p1: RawParams,
    p2: RawParams,
    input_size: int,
    hidden_size: int,
)
    requires
        initialized_params(p1, input_size, hidden_size),
        initialized_params(p2, input_size, hidden_size),
    ensures
        p1.weights_input_hidden@.len() == p2.weights_input_hidden@.len(),
        forall|i: int|
            0 <= i < hidden_size ==> (#[trigger] p1.weights_input_hidden@[i])@
                =~= p2.weights_input_hidden@[i]@,
        p1.bias_hidden@ =~= p2.bias_hidden@,
        p1.weights_hidden_output@ =~= p2.weights_hidden_output@,
        p1.bias_output == p2.bias_output,
{
    assert forall|i: int| 0 <= i < hidden_size implies (#[trigger] p1.weights_input_hidden@[i])@
        =~= p2.weights_input_hidden@[i]@ by {
        assert forall|j: int| 0 <= j < input_size implies p1.weights_input_hidden@[i]@[j]
            == p2.weights_input_hidden@[i]@[j] by {
            assert(p1.weights_input_hidden@[i]@[j] == init_draw(
                (i * (input_size + 1) + j + 1) as nat,
            ));
        }
    }
    assert(p1.bias_hidden@ =~= p2.bias_hidden@);
    assert(p1.weights_hidden_output@ =~= p2.weights_hidden_output@);
}

} // verus!
