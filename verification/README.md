# fused_kernels

The decisions behind two GPU operations, written in Rust and verified with Verus.

`attention` chooses among attention kernels. It holds the candidates of a device (three flash
kernels on matrix instructions, a flash kernel without them, and a fallback that holds the whole
score matrix), the levels at which a tuner tries them, the key under which a result is kept, and
the inputs that a benchmark and a call run on.

`reduce` lays out a fused broadcasted reduction: the operations that every unit of a device goes
through, block after block, the sharing of variables among the units of a plane or a cube, and the
loop that each unit runs in the elementwise block at the end. The axes and the number of rows are
arguments of the kernel, so that one kernel takes every value of them.

`dtype` and `outside` tie both to the types of `burn_backend`, `cubecl` and `cubek`.

The modules `attention::laws`, `reduce::laws` and `reduce::sharing` state what holds of each
operation as a whole: that no candidate is skipped and a tuner always settles, that a benchmark
times its own candidate or fails, that a kernel ends with its elementwise block, that a launch of
it writes every vector of every row once and nothing else, and that the units which share a row
hold by then what the first of them had from a reduction.

`app` runs both on a device: it registers the candidates with the tuner of `cubecl`, and compiles
the operations of a kernel to device code around the code that is fused into it. What the kernels
compute on the device is not part of the proofs.
