use crate::error::Error;
use vstd::prelude::*;

verus! {

/// The number of elements of an array of the given shape.
pub open spec fn shape_size(shape: Seq<usize>) -> int
    decreases shape.len(),
{
    if shape.len() == 0 {
        1
    } else {
        shape_size(shape.drop_last()) * shape.last()
    }
}

proof fn lemma_shape_size_nonneg(shape: Seq<usize>)
    ensures
        shape_size(shape) >= 0,
    decreases shape.len(),
{
    if shape.len() > 0 {
        lemma_shape_size_nonneg(shape.drop_last());
        assert(shape_size(shape.drop_last()) * shape.last() >= 0) by (nonlinear_arith)
            requires
                shape_size(shape.drop_last()) >= 0,
        ;
    }
}

/// A shape with a zero extent holds no element.
proof fn lemma_shape_size_zero(shape: Seq<usize>, i: int)
    requires
        0 <= i < shape.len(),
        shape[i] == 0,
    ensures
        shape_size(shape) == 0,
    decreases shape.len(),
{
    if i < shape.len() - 1 {
        lemma_shape_size_zero(shape.drop_last(), i);
        assert(shape.drop_last()[i] == shape[i]);
        let z = shape.last() as int;
        assert(0 * z == 0) by (nonlinear_arith);
    } else {
        let x = shape_size(shape.drop_last());
        assert(x * 0 == 0) by (nonlinear_arith);
    }
}

/// Without a zero extent, a longer prefix holds no fewer elements.
proof fn lemma_shape_size_prefix(shape: Seq<usize>, i: int)
    requires
        0 <= i <= shape.len(),
        forall|j: int| 0 <= j < shape.len() ==> shape[j] >= 1,
    ensures
        shape_size(shape.subrange(0, i)) <= shape_size(shape),
    decreases shape.len(),
{
    if i < shape.len() {
        let front = shape.drop_last();
        lemma_shape_size_prefix(front, i);
        assert(front.subrange(0, i) =~= shape.subrange(0, i));
        lemma_shape_size_nonneg(front);
        let a = shape_size(front);
        let b = shape.last() as int;
        assert(a <= a * b) by (nonlinear_arith)
            requires
                a >= 0,
                b >= 1,
        ;
    } else {
        assert(shape.subrange(0, i) =~= shape);
    }
}

/// The number of elements of an array of the given shape.
pub fn size_of_shape(shape: &Vec<usize>) -> (r: usize)
    requires
        shape_size(shape@) <= usize::MAX,
    ensures
        r == shape_size(shape@),
{
    let mut k: usize = 0;
    while k < shape.len()
        invariant
            0 <= k <= shape.len(),
            forall|j: int| 0 <= j < k ==> shape@[j] >= 1,
        decreases shape.len() - k,
    {
        if shape[k] == 0 {
            proof {
                lemma_shape_size_zero(shape@, k as int);
            }
            return 0;
        }
        k = k + 1;
    }
    let mut size: usize = 1;
    let mut i: usize = 0;
    while i < shape.len()
        invariant
            0 <= i <= shape.len(),
            forall|j: int| 0 <= j < shape.len() ==> shape@[j] >= 1,
            shape_size(shape@) <= usize::MAX,
            size == shape_size(shape@.subrange(0, i as int)),
        decreases shape.len() - i,
    {
        proof {
            lemma_shape_size_prefix(shape@, i + 1);
            assert(shape@.subrange(0, i + 1).drop_last() =~= shape@.subrange(0, i as int));
        }
        size = size * shape[i];
        i = i + 1;
    }
    assert(shape@.subrange(0, shape.len() as int) =~= shape@);
    size
}

/// How the zenith angles of a query pair with its energies.
#[derive(Clone, Copy, Debug, PartialEq, Eq, Structural)]
pub enum Broadcast {
    /// No angles: the isotropic spectrum alone.
    Plain,
    /// One angle, shared by every energy.
    Scalar,
    /// One angle per energy, index by index.
    Pointwise,
    /// Every energy with every angle, energies outermost.
    Grid,
}

/// What one output value is made of: the spectrum at an energy sample, times
/// the angular factor at that energy and an angle sample, when there is one.
#[derive(Clone, Copy, Debug, PartialEq, Eq, Structural)]
pub struct Cell {
    pub energy: usize,
    pub theta: Option<usize>,
}

/// The model of a flux plan.
pub struct PlanModel {
    pub shape: Seq<usize>,
    pub energies: int,
    pub thetas: int,
    pub broadcast: Broadcast,
}

/// The cell behind output value `k`, with `m` angle samples.
pub open spec fn cell_of(b: Broadcast, m: int, k: int) -> Cell {
    match b {
        Broadcast::Plain => Cell { energy: k as usize, theta: None },
        Broadcast::Scalar => Cell { energy: k as usize, theta: Some(0) },
        Broadcast::Pointwise => Cell { energy: k as usize, theta: Some(k as usize) },
        Broadcast::Grid => Cell { energy: (k / m) as usize, theta: Some((k % m) as usize) },
    }
}

/// The number of output values.
pub open spec fn output_size(p: PlanModel) -> int {
    match p.broadcast {
        Broadcast::Grid => p.energies * p.thetas,
        _ => p.energies,
    }
}

/// The plan that a query with these shapes gets, or the refusal.
pub open spec fn planned(
    energy: Seq<usize>,
    theta: Option<Seq<usize>>,
    grid: bool,
) -> Result<PlanModel, Error> {
    let n = shape_size(energy);
    match theta {
        None => Ok(PlanModel { shape: energy, energies: n, thetas: 0, broadcast: Broadcast::Plain }),
        Some(t) => if grid {
            Ok(
                PlanModel {
                    shape: energy + t,
                    energies: n,
                    thetas: shape_size(t),
                    broadcast: Broadcast::Grid,
                },
            )
        } else if t.len() == 0 {
            Ok(PlanModel { shape: energy, energies: n, thetas: 1, broadcast: Broadcast::Scalar })
        } else if shape_size(t) == n {
            Ok(PlanModel { shape: energy, energies: n, thetas: n, broadcast: Broadcast::Pointwise })
        } else {
            Err(Error::BadTheta { expected: n as usize, found: shape_size(t) as usize })
        },
    }
}

/// How a flux query is evaluated: the output shape, and for each output
/// value the energy and angle samples it is made of. The spectrum is
/// evaluated once per energy sample, whatever the number of angles.
#[derive(Debug)]
pub struct FluxPlan {
    shape: Vec<usize>,
    energies: usize,
    thetas: usize,
    broadcast: Broadcast,
}

impl View for FluxPlan {
    type V = PlanModel;

    closed spec fn view(&self) -> PlanModel {
        PlanModel {
            shape: self.shape@,
            energies: self.energies as int,
            thetas: self.thetas as int,
            broadcast: self.broadcast,
        }
    }
}

impl FluxPlan {
    /// The output size fits in memory and matches the output shape.
    pub open spec fn wf(&self) -> bool {
        &&& output_size(self@) <= usize::MAX
        &&& shape_size(self@.shape) == output_size(self@)
        &&& self@.energies >= 0
        &&& self@.thetas >= 0
        &&& self@.broadcast == Broadcast::Plain ==> self@.thetas == 0
        &&& self@.broadcast == Broadcast::Scalar ==> self@.thetas == 1
        &&& self@.broadcast == Broadcast::Pointwise ==> self@.thetas == self@.energies
    }

    /// Plans a query from the shape of its energies and, if any, of its
    /// angles. Outside grid mode the angles must be a scalar (an empty shape)
    /// or hold as many values as the energies.
    pub fn new(energy_shape: &Vec<usize>, theta_shape: Option<&Vec<usize>>, grid: bool) -> (r:
        Result<FluxPlan, Error>)
        requires
            shape_size(energy_shape@) <= usize::MAX,
            theta_shape is Some ==> shape_size(theta_shape->Some_0@) <= usize::MAX,
            grid && theta_shape is Some ==> shape_size(energy_shape@) * shape_size(
                theta_shape->Some_0@,
            ) <= usize::MAX,
        ensures
            match planned(
                energy_shape@,
                match theta_shape {
                    Some(t) => Some(t@),
                    None => None,
                },
                grid,
            ) {
                Ok(p) => r is Ok && r->Ok_0@ == p && r->Ok_0.wf(),
                Err(e) => r == Err::<FluxPlan, Error>(e),
            },
    {
        let n = size_of_shape(energy_shape);
        match theta_shape {
            None => Ok(
                FluxPlan {
                    shape: energy_shape.clone(),
                    energies: n,
                    thetas: 0,
                    broadcast: Broadcast::Plain,
                },
            ),
            Some(t) => {
                let m = size_of_shape(t);
                if grid {
                    let mut shape = energy_shape.clone();
                    let mut extra = t.clone();
                    shape.append(&mut extra);
                    proof {
                        lemma_shape_size_concat(energy_shape@, t@);
                    }
                    Ok(FluxPlan { shape, energies: n, thetas: m, broadcast: Broadcast::Grid })
                } else if t.len() == 0 {
                    Ok(
                        FluxPlan {
                            shape: energy_shape.clone(),
                            energies: n,
                            thetas: 1,
                            broadcast: Broadcast::Scalar,
                        },
                    )
                } else if m == n {
                    Ok(
                        FluxPlan {
                            shape: energy_shape.clone(),
                            energies: n,
                            thetas: n,
                            broadcast: Broadcast::Pointwise,
                        },
                    )
                } else {
                    Err(Error::BadTheta { expected: n, found: m })
                }
            },
        }
    }

    /// The output shape: the energies' shape, followed in grid mode by the
    /// angles' shape.
    pub fn shape(&self) -> (r: &Vec<usize>)
        ensures
            r@ == self@.shape,
    {
        &self.shape
    }

    /// How the angles pair with the energies.
    pub fn broadcast(&self) -> (r: Broadcast)
        ensures
            r == self@.broadcast,
    {
        self.broadcast
    }

    /// The number of spectrum evaluations: one per energy sample.
    pub fn spectrum_count(&self) -> (r: usize)
        ensures
            r == self@.energies,
    {
        self.energies
    }

    /// The number of output values.
    pub fn size(&self) -> (r: usize)
        requires
            self.wf(),
        ensures
            r == output_size(self@),
    {
        match self.broadcast {
            Broadcast::Grid => self.energies * self.thetas,
            _ => self.energies,
        }
    }

    /// The cell behind output value `k`.
    pub fn cell(&self, k: usize) -> (r: Cell)
        requires
            self.wf(),
            k < output_size(self@),
        ensures
            r == cell_of(self@.broadcast, self@.thetas, k as int),
    {
        match self.broadcast {
            Broadcast::Plain => Cell { energy: k, theta: None },
            Broadcast::Scalar => Cell { energy: k, theta: Some(0) },
            Broadcast::Pointwise => Cell { energy: k, theta: Some(k) },
            Broadcast::Grid => Cell { energy: k / self.thetas, theta: Some(k % self.thetas) },
        }
    }

    /// The cells behind all output values, in output order.
    pub fn cells(&self) -> (r: Vec<Cell>)
        requires
            self.wf(),
        ensures
            r@.len() == output_size(self@),
            forall|k: int|
                0 <= k < r@.len() ==> #[trigger] r@[k] == cell_of(
                    self@.broadcast,
                    self@.thetas,
                    k,
                ),
    {
        let size = self.size();
        let mut out: Vec<Cell> = Vec::with_capacity(size);
        let mut k: usize = 0;
        while k < size
            invariant
                self.wf(),
                size == output_size(self@),
                0 <= k <= size,
                out@.len() == k,
                forall|j: int|
                    0 <= j < k ==> #[trigger] out@[j] == cell_of(self@.broadcast, self@.thetas, j),
            decreases size - k,
        {
            out.push(self.cell(k));
            k = k + 1;
        }
        out
    }
}

/// Output value `v` is made as cell `c` says: the spectrum at its energy
/// sample, times, when it has an angle sample, the angular factor there.
pub open spec fn made_of<T, S: Fn(usize) -> T, A: Fn(usize, usize) -> T, M: Fn(T, T) -> T>(
    c: Cell,
    v: T,
    spectrum: S,
    angular: A,
    product: M,
) -> bool {
    exists|f: T|
        #[trigger] spectrum.ensures((c.energy,), f) && match c.theta {
            None => v == f,
            Some(j) => exists|a: T|
                #[trigger] angular.ensures((c.energy, j), a) && product.ensures((f, a), v),
        }
}

proof fn lemma_grid_index(i: int, j: int, m: int)
    requires
        0 <= i,
        0 <= j < m,
    ensures
        (i * m + j) / m == i,
        (i * m + j) % m == j,
{
    assert((i * m + j) / m == i && (i * m + j) % m == j) by (nonlinear_arith)
        requires
            0 <= i,
            0 <= j < m,
    ;
}

impl FluxPlan {
    /// Evaluates the plan: the spectrum once per energy sample, in order,
    /// and for each output value the angular factor of its cell, if any,
    /// multiplied into the spectrum value of its energy sample.
    pub fn evaluate<T: Copy, S: Fn(usize) -> T, A: Fn(usize, usize) -> T, M: Fn(T, T) -> T>(
        &self,
        spectrum: S,
        angular: A,
        product: M,
    ) -> (r: Vec<T>)
        requires
            self.wf(),
            forall|i: usize| i < self@.energies ==> #[trigger] spectrum.requires((i,)),
            forall|i: usize, j: usize|
                i < self@.energies && j < self@.thetas ==> #[trigger] angular.requires((i, j)),
            forall|a: T, b: T| #[trigger] product.requires((a, b)),
        ensures
            r@.len() == output_size(self@),
            forall|k: int|
                0 <= k < r@.len() ==> made_of(
                    cell_of(self@.broadcast, self@.thetas, k),
                    #[trigger] r@[k],
                    spectrum,
                    angular,
                    product,
                ),
    {
        let n = self.energies;
        let m = self.thetas;
        let b = self.broadcast;
        let size = self.size();
        let mut out: Vec<T> = Vec::with_capacity(size);
        let mut i: usize = 0;
        while i < n
            invariant
                self.wf(),
                n == self@.energies,
                m == self@.thetas,
                b == self@.broadcast,
                size == output_size(self@),
                0 <= i <= n,
                b == Broadcast::Grid ==> out@.len() == i * m,
                b != Broadcast::Grid ==> out@.len() == i,
                forall|i: usize| i < self@.energies ==> #[trigger] spectrum.requires((i,)),
                forall|i: usize, j: usize|
                    i < self@.energies && j < self@.thetas ==> #[trigger] angular.requires((i, j)),
                forall|a: T, b: T| #[trigger] product.requires((a, b)),
                forall|k: int|
                    0 <= k < out@.len() ==> made_of(
                        cell_of(b, m as int, k),
                        #[trigger] out@[k],
                        spectrum,
                        angular,
                        product,
                    ),
            decreases n - i,
        {
            let f = spectrum(i);
            match b {
                Broadcast::Plain => {
                    out.push(f);
                    proof {
                        let c = cell_of(b, m as int, i as int);
                        assert(out@[i as int] == f);
                        assert(spectrum.ensures((c.energy,), f));
                        assert(made_of(c, out@[i as int], spectrum, angular, product));
                    }
                },
                Broadcast::Scalar => {
                    let a = angular(i, 0);
                    let v = product(f, a);
                    out.push(v);
                    proof {
                        let c = cell_of(b, m as int, i as int);
                        assert(out@[i as int] == v);
                        assert(angular.ensures((c.energy, 0usize), a));
                        assert(made_of(c, out@[i as int], spectrum, angular, product));
                    }
                },
                Broadcast::Pointwise => {
                    let a = angular(i, i);
                    let v = product(f, a);
                    out.push(v);
                    proof {
                        let c = cell_of(b, m as int, i as int);
                        assert(out@[i as int] == v);
                        assert(angular.ensures((c.energy, i), a));
                        assert(made_of(c, out@[i as int], spectrum, angular, product));
                    }
                },
                Broadcast::Grid => {
                    let mut j: usize = 0;
                    while j < m
                        invariant
                            self.wf(),
                            n == self@.energies,
                            m == self@.thetas,
                            b == Broadcast::Grid,
                            b == self@.broadcast,
                            0 <= i < n,
                            0 <= j <= m,
                            out@.len() == i * m + j,
                            spectrum.ensures((i,), f),
                            forall|i: usize, j: usize|
                                i < self@.energies && j < self@.thetas
                                    ==> #[trigger] angular.requires((i, j)),
                            forall|a: T, b: T| #[trigger] product.requires((a, b)),
                            forall|k: int|
                                0 <= k < out@.len() ==> made_of(
                                    cell_of(b, m as int, k),
                                    #[trigger] out@[k],
                                    spectrum,
                                    angular,
                                    product,
                                ),
                        decreases m - j,
                    {
                        proof {
                            lemma_grid_index(i as int, j as int, m as int);
                            assert(i * m + j < n * m) by (nonlinear_arith)
                                requires
                                    i < n,
                                    j < m,
                            ;
                        }
                        let a = angular(i, j);
                        let v = product(f, a);
                        let ghost k = out@.len() as int;
                        out.push(v);
                        proof {
                            let c = cell_of(b, m as int, k);
                            assert(c == Cell { energy: i, theta: Some(j) });
                            assert(out@[k] == v);
                            assert(angular.ensures((c.energy, j), a));
                            assert(made_of(c, out@[k], spectrum, angular, product));
                        }
                        j = j + 1;
                    }
                    proof {
                        assert((i + 1) * m == i * m + m) by (nonlinear_arith);
                    }
                },
            }
            i = i + 1;
        }
        out
    }
}

proof fn lemma_shape_size_concat(a: Seq<usize>, b: Seq<usize>)
    ensures
        shape_size(a + b) == shape_size(a) * shape_size(b),
    decreases b.len(),
{
    if b.len() == 0 {
        assert(a + b =~= a);
    } else {
        lemma_shape_size_concat(a, b.drop_last());
        assert((a + b).drop_last() =~= a + b.drop_last());
        let x = shape_size(a);
        let y = shape_size(b.drop_last());
        let z = b.last() as int;
        assert(x * y * z == x * (y * z)) by (nonlinear_arith);
    }
}

/// Values given by the caller in place of those derived from the
/// observation context.
#[derive(Clone, Copy, Debug, PartialEq)]
pub struct Overrides<T> {
    pub depth: Option<T>,
    pub cutoff: Option<T>,
    pub solar: Option<T>,
}

/// The physical parameters of a flux query: atmospheric depth, cutoff
/// rigidity and solar activity.
#[derive(Clone, Copy, Debug, PartialEq)]
pub struct Parameters<T> {
    pub depth: T,
    pub cutoff: T,
    pub solar: T,
}

/// A given value, or else the derived one.
pub open spec fn given_or<T>(given: Option<T>, derived: T) -> T {
    match given {
        Some(v) => v,
        None => derived,
    }
}

/// The parameters of a query: each one given, or else the context's own.
pub open spec fn resolved<T>(o: Overrides<T>, context: Parameters<T>) -> Parameters<T> {
    Parameters {
        depth: given_or(o.depth, context.depth),
        cutoff: given_or(o.cutoff, context.cutoff),
        solar: given_or(o.solar, context.solar),
    }
}

/// A given value, or else the one that `derive` computes; `derive` is called
/// only when no value is given.
pub fn given_or_derived<T, F: FnOnce() -> T>(given: Option<T>, derive: F) -> (r: T)
    requires
        given is None ==> derive.requires(()),
    ensures
        given is Some ==> r == given->Some_0,
        given is None ==> derive.ensures((), r),
{
    match given {
        Some(v) => v,
        None => derive(),
    }
}

/// The parameters of a query: each one given, or else derived by its own
/// function, which is called only for the parameters that are not given.
pub fn resolve<T, FD: FnOnce() -> T, FC: FnOnce() -> T, FS: FnOnce() -> T>(
    o: Overrides<T>,
    depth: FD,
    cutoff: FC,
    solar: FS,
) -> (r: Parameters<T>)
    requires
        o.depth is None ==> depth.requires(()),
        o.cutoff is None ==> cutoff.requires(()),
        o.solar is None ==> solar.requires(()),
    ensures
        o.depth is Some ==> r.depth == o.depth->Some_0,
        o.depth is None ==> depth.ensures((), r.depth),
        o.cutoff is Some ==> r.cutoff == o.cutoff->Some_0,
        o.cutoff is None ==> cutoff.ensures((), r.cutoff),
        o.solar is Some ==> r.solar == o.solar->Some_0,
        o.solar is None ==> solar.ensures((), r.solar),
        forall|context: Parameters<T>|
            (o.depth is None ==> context.depth == r.depth) && (o.cutoff is None
                ==> context.cutoff == r.cutoff) && (o.solar is None ==> context.solar == r.solar)
                ==> r == #[trigger] resolved(o, context),
{
    let d = given_or_derived(o.depth, depth);
    let c = given_or_derived(o.cutoff, cutoff);
    let s = given_or_derived(o.solar, solar);
    Parameters { depth: d, cutoff: c, solar: s }
}

/// Giving exactly one parameter leaves the other two as the context derives
/// them, as if none had been given.
pub proof fn lemma_override_one<T>(o: Overrides<T>, context: Parameters<T>)
    requires
        (o.depth is Some) as int + (o.cutoff is Some) as int + (o.solar is Some) as int == 1,
    ensures
        ({
            let none = Overrides::<T> { depth: None, cutoff: None, solar: None };
            let r = resolved(o, context);
            let base = resolved(none, context);
            &&& base == context
            &&& o.depth is Some ==> r == Parameters { depth: o.depth->Some_0, ..base }
            &&& o.cutoff is Some ==> r == Parameters { cutoff: o.cutoff->Some_0, ..base }
            &&& o.solar is Some ==> r == Parameters { solar: o.solar->Some_0, ..base }
        }),
{
}

/// Without angles, a query has one output value per energy sample, and output
/// value `k` is the spectrum at energy sample `k`.
pub proof fn lemma_plain_query(energy: Seq<usize>, grid: bool, k: int)
    requires
        0 <= k < shape_size(energy),
    ensures
        planned(energy, None, grid) is Ok,
        output_size(planned(energy, None, grid)->Ok_0) == shape_size(energy),
        planned(energy, None, grid)->Ok_0.shape == energy,
        cell_of(planned(energy, None, grid)->Ok_0.broadcast, 0, k) == (Cell {
            energy: k as usize,
            theta: None,
        }),
{
}

/// Outside grid mode, angles of the energies' size pair with them index by
/// index; angles of another size, unless a scalar, are refused as a type
/// mismatch that states both sizes.
pub proof fn lemma_pointwise_query(energy: Seq<usize>, theta: Seq<usize>, k: int)
    requires
        theta.len() > 0,
        0 <= k < shape_size(energy),
    ensures
        shape_size(theta) == shape_size(energy) ==> {
            let p = planned(energy, Some(theta), false)->Ok_0;
            &&& planned(energy, Some(theta), false) is Ok
            &&& output_size(p) == shape_size(energy)
            &&& cell_of(p.broadcast, p.thetas, k) == (Cell {
                energy: k as usize,
                theta: Some(k as usize),
            })
        },
        shape_size(theta) != shape_size(energy) ==> {
            let r = planned(energy, Some(theta), false);
            &&& r == Err::<PlanModel, Error>(
                Error::BadTheta {
                    expected: shape_size(energy) as usize,
                    found: shape_size(theta) as usize,
                },
            )
            &&& r->Err_0.kind_spec() == crate::error::ErrorKind::TypeMismatch
        },
{
}

/// In grid mode the output has the energies' shape followed by the angles'
/// shape; the spectrum is evaluated once per energy sample, and output value
/// `i * m + j` is the spectrum at energy `i` with the angle factor at energy
/// `i` and angle `j`, so that all values of row `i` share one spectrum value.
pub proof fn lemma_grid_query(energy: Seq<usize>, theta: Seq<usize>, i: int, j: int)
    requires
        0 <= i < shape_size(energy),
        0 <= j < shape_size(theta),
    ensures
        ({
            let p = planned(energy, Some(theta), true)->Ok_0;
            &&& planned(energy, Some(theta), true) is Ok
            &&& p.shape == energy + theta
            &&& output_size(p) == shape_size(energy) * shape_size(theta)
            &&& p.energies == shape_size(energy)
            &&& 0 <= i * p.thetas + j < output_size(p)
            &&& cell_of(p.broadcast, p.thetas, i * p.thetas + j) == (Cell {
                energy: i as usize,
                theta: Some(j as usize),
            })
        }),
{
    let n = shape_size(energy);
    let m = shape_size(theta);
    assert(0 <= i * m + j < n * m) by (nonlinear_arith)
        requires
            0 <= i < n,
            0 <= j < m,
    ;
    lemma_grid_index(i, j, m);
}

} // verus!
