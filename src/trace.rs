use vstd::prelude::*;
use crate::color::{
    Color, add_color, add_spec, average_spec, compose_color, compose_spec, lemma_average_of_uniform_samples,
    sum_fits,
};

verus! {

/// The deepest bounce at which a hit may still scatter. A hit at this depth
/// contributes its emitted light only.
pub const MAX_RAYTRACE_DEPTH: usize = 64;

/// What the ray traced at one depth of a path met.
#[derive(Clone, Copy, Debug, PartialEq, Eq, Structural)]
pub enum Outcome {
    /// The ray left the scene: it brings back the background.
    Miss,
    /// The ray hit a surface emitting `emitted`. `attenuation` is what the
    /// surface's material returned from `scatter`: `None` where it absorbs
    /// all light, or where it was not asked because the depth limit was
    /// reached.
    Hit { emitted: Color, attenuation: Option<Color> },
}

/// The outcome recorded at `depth`; a depth past the record counts as a miss.
pub open spec fn outcome_at(s: Seq<Outcome>, depth: int) -> Outcome {
    if 0 <= depth < s.len() {
        s[depth]
    } else {
        Outcome::Miss
    }
}

/// The colour the recursive integrator returns for the ray traced at `depth`,
/// given what the rays of the path met: a miss gives the background; a hit
/// gives its emitted light, plus, below the depth limit and where the
/// material scatters, the attenuated colour of the scattered ray
/// (emission added after the attenuation is applied).
pub open spec fn trace_color(s: Seq<Outcome>, depth: int, background: Color) -> Color
    decreases MAX_RAYTRACE_DEPTH - depth,
{
    match outcome_at(s, depth) {
        Outcome::Miss => background,
        Outcome::Hit { emitted, attenuation } => {
            if depth < MAX_RAYTRACE_DEPTH {
                match attenuation {
                    None => emitted,
                    Some(a) => add_spec(emitted, compose_spec(a, trace_color(s, depth + 1, background))),
                }
            } else {
                emitted
            }
        },
    }
}

/// Whether a path ends with the ray traced at `depth` when it meets `o`.
pub open spec fn ends_path(o: Outcome, depth: int) -> bool {
    match o {
        Outcome::Miss => true,
        Outcome::Hit { attenuation, .. } => depth >= MAX_RAYTRACE_DEPTH || attenuation is None,
    }
}

/// Whether every sum the integrator makes for the ray traced at `depth`
/// stays within 8 bits: at each hit that scatters, its emitted light plus
/// the attenuated colour of the scattered ray.
pub open spec fn trace_fits(s: Seq<Outcome>, depth: int, background: Color) -> bool
    decreases MAX_RAYTRACE_DEPTH - depth,
{
    match outcome_at(s, depth) {
        Outcome::Miss => true,
        Outcome::Hit { emitted, attenuation } => {
            if depth < MAX_RAYTRACE_DEPTH {
                match attenuation {
                    None => true,
                    Some(a) => trace_fits(s, depth + 1, background) && sum_fits(
                        emitted,
                        compose_spec(a, trace_color(s, depth + 1, background)),
                    ),
                }
            } else {
                true
            }
        },
    }
}

/// One traced path, recorded bounce by bounce: the caller traces each ray,
/// reports what it met, and asks whether to go on; the path then composes
/// its colour exactly as the recursive integrator would.
pub struct PathTrace {
    background: Color,
    outcomes: Vec<Outcome>,
    finished: bool,
}

impl PathTrace {
    /// The outcomes recorded so far, the first for the primary ray.
    pub closed spec fn recorded(&self) -> Seq<Outcome> {
        self.outcomes@
    }

    /// The colour of a ray that leaves the scene.
    pub closed spec fn background(&self) -> Color {
        self.background
    }

    /// Whether the last recorded outcome ended the path.
    pub closed spec fn finished(&self) -> bool {
        self.finished
    }

    pub closed spec fn wf(&self) -> bool {
        let s = self.outcomes@;
        &&& s.len() <= MAX_RAYTRACE_DEPTH + 1
        &&& forall|i: int| 0 <= i < s.len() - 1 ==> !#[trigger] ends_path(s[i], i)
        &&& self.finished == (s.len() > 0 && ends_path(s.last(), s.len() - 1))
    }

    /// A path that has traced nothing yet.
    pub fn new(background: Color) -> (p: PathTrace)
        ensures
            p.wf(),
            p.recorded() == Seq::<Outcome>::empty(),
            p.background() == background,
            !p.finished(),
    {
        PathTrace { background, outcomes: Vec::new(), finished: false }
    }

    /// The depth of the next ray: the number of outcomes recorded.
    pub fn depth(&self) -> (d: usize)
        ensures
            d == self.recorded().len(),
    {
        self.outcomes.len()
    }

    /// Whether a hit at the current depth may scatter, so that its
    /// material's `scatter` is to be asked.
    pub fn scatters(&self) -> (r: bool)
        ensures
            r == (self.recorded().len() < MAX_RAYTRACE_DEPTH),
    {
        self.outcomes.len() < MAX_RAYTRACE_DEPTH
    }

    pub fn is_finished(&self) -> (r: bool)
        ensures
            r == self.finished(),
    {
        self.finished
    }

    /// Records what the ray at the current depth met, and says whether the
    /// path goes on with a scattered ray. A path never grows past the depth
    /// limit.
    pub fn record(&mut self, o: Outcome) -> (more: bool)
        requires
            old(self).wf(),
            !old(self).finished(),
        ensures
            final(self).wf(),
            final(self).recorded() == old(self).recorded().push(o),
            final(self).background() == old(self).background(),
            final(self).finished() == ends_path(o, old(self).recorded().len() as int),
            more == !final(self).finished(),
            final(self).recorded().len() <= MAX_RAYTRACE_DEPTH + 1,
    {
        let d = self.outcomes.len();
        let ends = match o {
            Outcome::Miss => true,
            Outcome::Hit { attenuation, .. } => d >= MAX_RAYTRACE_DEPTH || attenuation.is_none(),
        };
        let ghost prev = self.outcomes@;
        self.outcomes.push(o);
        self.finished = ends;
        proof {
            let s = self.outcomes@;
            assert(s == prev.push(o));
            assert forall|i: int| 0 <= i < s.len() - 1 implies !#[trigger] ends_path(s[i], i) by {
                assert(s[i] == prev[i]);
            }
        }
        !ends
    }

    /// The colour of a finished path, as the recursive integrator returns it
    /// for the primary ray; `None` where one of its sums would leave 8 bits.
    pub fn color(&self) -> (c: Option<Color>)
        requires
            self.wf(),
            self.finished(),
        ensures
            c is Some <==> trace_fits(self.recorded(), 0, self.background()),
            c is Some ==> c == Some(trace_color(self.recorded(), 0, self.background())),
    {
        let n = self.outcomes.len();
        let last = self.outcomes[n - 1];
        let mut c = match last {
            Outcome::Miss => self.background,
            Outcome::Hit { emitted, .. } => emitted,
        };
        proof {
            reveal_with_fuel(trace_color, 2);
            reveal_with_fuel(trace_fits, 2);
        }
        let mut i: usize = n - 1;
        while i > 0
            invariant
                self.wf(),
                self.finished(),
                n == self.outcomes@.len(),
                i < n,
                c == trace_color(self.outcomes@, i as int, self.background),
                trace_fits(self.outcomes@, i as int, self.background),
            decreases i,
        {
            i = i - 1;
            let o = self.outcomes[i];
            proof {
                assert(!ends_path(self.outcomes@[i as int], i as int));
            }
            match o {
                Outcome::Miss => {},
                Outcome::Hit { emitted, attenuation } => {
                    match attenuation {
                        None => {},
                        Some(a) => {
                            let k = compose_color(a, c);
                            if emitted.r as u16 + k.r as u16 > 255 || emitted.g as u16 + k.g as u16 > 255
                                || emitted.b as u16 + k.b as u16 > 255 {
                                proof {
                                    if trace_fits(self.outcomes@, 0, self.background) {
                                        lemma_fits_suffix(self.outcomes@, 0, i as int, self.background);
                                    }
                                }
                                return None;
                            }
                            c = add_color(emitted, k);
                        },
                    }
                },
            }
        }
        Some(c)
    }
}

/// Along a path whose rays all scatter, fitting from an earlier depth means
/// fitting from every later one.
proof fn lemma_fits_suffix(s: Seq<Outcome>, j: int, i: int, background: Color)
    requires
        0 <= j <= i < s.len(),
        forall|k: int| j <= k < i ==> !#[trigger] ends_path(s[k], k),
        trace_fits(s, j, background),
    ensures
        trace_fits(s, i, background),
    decreases i - j,
{
    if j < i {
        assert(!ends_path(s[j], j));
        lemma_fits_suffix(s, j + 1, i, background);
    }
}

proof fn lemma_agree_from(s1: Seq<Outcome>, s2: Seq<Outcome>, depth: int, background: Color)
    requires
        0 <= depth <= MAX_RAYTRACE_DEPTH,
        forall|d: int| depth <= d <= MAX_RAYTRACE_DEPTH ==> outcome_at(s1, d) == outcome_at(s2, d),
    ensures
        trace_color(s1, depth, background) == trace_color(s2, depth, background),
    decreases MAX_RAYTRACE_DEPTH - depth,
{
    if depth < MAX_RAYTRACE_DEPTH {
        lemma_agree_from(s1, s2, depth + 1, background);
    }
}

/// The recursion is bounded by the depth limit: the colour of a path depends
/// on what its rays met at depths `0..=MAX_RAYTRACE_DEPTH` alone, so no ray
/// deeper than that is ever traced.
pub proof fn lemma_trace_depth_bounded(s1: Seq<Outcome>, s2: Seq<Outcome>, background: Color)
    requires
        forall|d: int| 0 <= d <= MAX_RAYTRACE_DEPTH ==> outcome_at(s1, d) == outcome_at(s2, d),
    ensures
        trace_color(s1, 0, background) == trace_color(s2, 0, background),
{
    lemma_agree_from(s1, s2, 0, background);
}

/// At the depth limit a hit contributes its emitted light only, whatever its
/// material would scatter.
pub proof fn lemma_emitted_only_at_max_depth(s: Seq<Outcome>, background: Color)
    requires
        outcome_at(s, MAX_RAYTRACE_DEPTH as int) is Hit,
    ensures
        trace_color(s, MAX_RAYTRACE_DEPTH as int, background) == outcome_at(
            s,
            MAX_RAYTRACE_DEPTH as int,
        )->Hit_emitted,
{
}

/// A primary ray that meets nothing brings back the background.
pub proof fn lemma_miss_gives_background(s: Seq<Outcome>, background: Color)
    requires
        outcome_at(s, 0) == Outcome::Miss,
    ensures
        trace_color(s, 0, background) == background,
{
}

/// In a scene with nothing to hit, every pixel is exactly the background,
/// whatever the number of samples: each sample's primary ray misses, and
/// identical samples average without noise.
pub proof fn lemma_empty_scene_pixel(paths: Seq<Seq<Outcome>>, samples: Seq<Color>, background: Color)
    requires
        samples.len() > 0,
        paths.len() == samples.len(),
        forall|i: int| 0 <= i < paths.len() ==> outcome_at(#[trigger] paths[i], 0) == Outcome::Miss,
        forall|i: int| 0 <= i < samples.len() ==> #[trigger] samples[i] == trace_color(paths[i], 0, background),
    ensures
        average_spec(samples) == background,
{
    assert forall|i: int| 0 <= i < samples.len() implies samples[i] == background by {
        lemma_miss_gives_background(paths[i], background);
    }
    lemma_average_of_uniform_samples(samples, background);
}

} // verus!
