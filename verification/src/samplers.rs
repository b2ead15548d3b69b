use vstd::prelude::*;

verus! {

/// Independent sampling: every requested dimension is a fresh uniform random
/// number. The sampler itself only keeps count of the samples and dimensions
/// handed out; the random numbers come from the caller's generator.
#[derive(Debug, Clone)]
pub struct IndependentSampler {
    base_seed: u64,
    sample_count: i32,
    current_sample: i32,
    current_dimension: i32,
}

impl IndependentSampler {
    /// Seed of the random stream.
    pub closed spec fn spec_seed(&self) -> u64 {
        self.base_seed
    }

    /// Number of samples per pixel.
    pub closed spec fn spec_sample_count(&self) -> i32 {
        self.sample_count
    }

    /// Index of the sample being generated.
    pub closed spec fn spec_current_sample(&self) -> i32 {
        self.current_sample
    }

    /// Number of dimensions already drawn for the current sample.
    pub closed spec fn spec_current_dimension(&self) -> i32 {
        self.current_dimension
    }

    /// A sampler taking `sample_count` samples per pixel, seeded with 123,
    /// at its first sample and first dimension.
    pub fn new(sample_count: i32) -> (r: IndependentSampler)
        ensures
            r.spec_seed() == 123,
            r.spec_sample_count() == sample_count,
            r.spec_current_sample() == 0,
            r.spec_current_dimension() == 0,
    {
        IndependentSampler { base_seed: 123, sample_count, current_sample: 0, current_dimension: 0 }
    }

    /// Prepares for the samples of pixel `(x, y)`; independent sampling
    /// needs no preparation.
    pub fn start_pixel(&mut self, x: i32, y: i32)
        ensures
            *final(self) == *old(self),
    {
    }

    /// Moves on to the next sample, whose dimensions start from zero again.
    pub fn advance(&mut self)
        requires
            old(self).spec_current_sample() < i32::MAX,
        ensures
            final(self).spec_current_dimension() == 0,
            final(self).spec_current_sample() == old(self).spec_current_sample() + 1,
            final(self).spec_sample_count() == old(self).spec_sample_count(),
            final(self).spec_seed() == old(self).spec_seed(),
    {
        self.current_dimension = 0;
        self.current_sample = self.current_sample + 1;
    }

    /// Records that `count` more dimensions of the current sample are drawn
    /// (one for a single number, two for a pair).
    pub fn consume_dimensions(&mut self, count: i32)
        requires
            0 <= count,
            old(self).spec_current_dimension() + count <= i32::MAX,
        ensures
            final(self).spec_current_dimension() == old(self).spec_current_dimension() + count,
            final(self).spec_current_sample() == old(self).spec_current_sample(),
            final(self).spec_sample_count() == old(self).spec_sample_count(),
            final(self).spec_seed() == old(self).spec_seed(),
    {
        self.current_dimension = self.current_dimension + count;
    }

    /// Number of samples per pixel.
    pub fn sample_count(&self) -> (r: i32)
        ensures
            r == self.spec_sample_count(),
    {
        self.sample_count
    }

    /// Seed of the random stream.
    pub fn seed(&self) -> (r: u64)
        ensures
            r == self.spec_seed(),
    {
        self.base_seed
    }

    /// Index of the sample being generated.
    pub fn current_sample(&self) -> (r: i32)
        ensures
            r == self.spec_current_sample(),
    {
        self.current_sample
    }

    /// Number of dimensions already drawn for the current sample.
    pub fn current_dimension(&self) -> (r: i32)
        ensures
            r == self.spec_current_dimension(),
    {
        self.current_dimension
    }
}

/// The samplers a scene can ask for.
#[derive(Debug, Clone)]
pub enum SamplerType {
    Independent(IndependentSampler),
}

impl SamplerType {
    /// The sampler's count of samples per pixel.
    pub open spec fn spec_sample_count(&self) -> i32 {
        match self {
            SamplerType::Independent(s) => s.spec_sample_count(),
        }
    }

    /// The sampler's seed.
    pub open spec fn spec_seed(&self) -> u64 {
        match self {
            SamplerType::Independent(s) => s.spec_seed(),
        }
    }

    /// Number of samples per pixel.
    pub fn sample_count(&self) -> (r: i32)
        ensures
            r == self.spec_sample_count(),
    {
        match self {
            SamplerType::Independent(s) => s.sample_count(),
        }
    }

    /// Seed of the random stream.
    pub fn seed(&self) -> (r: u64)
        ensures
            r == self.spec_seed(),
    {
        match self {
            SamplerType::Independent(s) => s.seed(),
        }
    }
}

/// What a scene description says about its sampler: the `type` and
/// `samples` entries, each of which may be absent.
#[derive(Debug, Clone)]
pub struct SamplerSettings {
    pub kind: Option<String>,
    pub samples: Option<i32>,
}

/// The sampler type name that a description stands for: `independent` when
/// it names none.
pub open spec fn sampler_name(settings: Option<&SamplerSettings>) -> Seq<char> {
    match settings {
        Some(st) => match st.kind {
            Some(k) => k@,
            None => "independent"@,
        },
        None => "independent"@,
    }
}

/// The sample count that a description stands for: one when it gives none.
pub open spec fn sampler_samples(settings: Option<&SamplerSettings>) -> i32 {
    match settings {
        Some(st) => match st.samples {
            Some(n) => n,
            None => 1,
        },
        None => 1,
    }
}

/// Whether a description names a sampler type this renderer knows: no
/// entry, or one without a `type`, means independent sampling.
pub open spec fn names_known_sampler(settings: Option<&SamplerSettings>) -> bool {
    sampler_name(settings) == "independent"@
}

/// Builds the sampler a scene asks for: no sampler entry, or one without a
/// `type`, means independent sampling, and a missing `samples` means one
/// sample per pixel. Only the independent type is known.
pub fn create_sampler(settings: Option<&SamplerSettings>) -> (r: SamplerType)
    requires
        names_known_sampler(settings),
    ensures
        r matches SamplerType::Independent(s) && s.spec_sample_count() == sampler_samples(settings)
            && s.spec_seed() == 123 && s.spec_current_sample() == 0 && s.spec_current_dimension() == 0,
        (settings is Some && settings->0.samples is Some) ==> r.spec_sample_count() == settings->0.samples->0,
        (settings is None || settings->0.samples is None) ==> r.spec_sample_count() == 1,
{
    let samples = match settings {
        None => 1,
        Some(st) => match st.samples {
            None => 1,
            Some(n) => n,
        },
    };
    SamplerType::Independent(IndependentSampler::new(samples))
}

/// The sample count a description gives is the one used, whether or not it
/// also names the sampler type; without one, a pixel gets one sample.
pub proof fn law_sampler_samples(settings: Option<&SamplerSettings>)
    ensures
        (settings is Some && settings->0.samples is Some) ==> sampler_samples(settings) == settings->0.samples->0,
        (settings is None || settings->0.samples is None) ==> sampler_samples(settings) == 1,
        (settings is Some && settings->0.kind is None) ==> names_known_sampler(settings),
        settings is None ==> names_known_sampler(settings),
{
}

} // verus!
