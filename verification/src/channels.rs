//! The three noise channels of one shake: turn, shift along x, shift along y.
//!
//! Each channel is coherent noise over a permutation table of its own. The
//! tables of one shake are built from three consecutive seeds, so the channels
//! have the same shape of noise and still do not move together.

use vstd::prelude::*;
use noise::permutationtable::PermutationTable;
use rand::Rng;

verus! {

/// `noise::permutationtable::PermutationTable`: a table of 256 bytes that a
/// noise function hashes lattice points with. Its field is private, so the
/// library sees nothing inside a table and only hands it on.
#[verifier::external_type_specification]
#[verifier::external_body]
pub struct ExPermutationTable(noise::permutationtable::PermutationTable);

/// The 256 entries of a permutation table, in the order of the table.
pub uninterp spec fn table_entries(table: PermutationTable) -> Seq<u8>;

/// The entries of the table that `PermutationTable::new` builds from a seed.
pub uninterp spec fn seeded_entries(seed: u32) -> Seq<u8>;

/// `noise::permutationtable::PermutationTable::new`: builds the table of a
/// seed. The table depends on nothing but the seed: the same seed gives the
/// same entries, wherever and whenever the table is built.
#[verifier::external_body]
fn seeded_table(seed: u32) -> (table: PermutationTable)
    ensures
        table_entries(table) == seeded_entries(seed),
{
    PermutationTable::new(seed)
}

/// `rand::Rng::gen_range` on the generator of `rand::thread_rng`, over the
/// half-open range from `low` to `high`: some value of that range. The call
/// panics on an empty range, which `requires` leaves out.
#[verifier::external_body]
fn random_in(low: u32, high: u32) -> (drawn: u32)
    requires
        low < high,
    ensures
        low <= drawn < high,
{
    rand::thread_rng().gen_range(low..high)
}

/// The seed that lies `steps` after `seed`, going round from the last seed to
/// the first.
pub open spec fn seed_after(seed: u32, steps: nat) -> u32 {
    ((seed + steps) % 0x1_0000_0000) as u32
}

/// Where the noise of one shake is sampled, and the seeds of its three tables.
#[derive(Clone, Copy, Debug, PartialEq, Eq, Structural)]
pub struct NoiseChannels {
    /// The seed of the shake. It is also the first coordinate at which each
    /// channel is sampled; the second is the time since the last frame.
    pub seed: u32,
    /// The seed of the table behind the turn.
    pub rotation: u32,
    /// The seed of the table behind the shift along x.
    pub offset_x: u32,
    /// The seed of the table behind the shift along y.
    pub offset_y: u32,
}

/// The permutation tables of the three channels.
pub struct NoiseTables {
    pub rotation: PermutationTable,
    pub offset_x: PermutationTable,
    pub offset_y: PermutationTable,
}

impl NoiseTables {
    /// Each table holds the entries that belong to the seed of its channel.
    pub open spec fn built_from(self, channels: NoiseChannels) -> bool {
        &&& table_entries(self.rotation) == seeded_entries(channels.rotation)
        &&& table_entries(self.offset_x) == seeded_entries(channels.offset_x)
        &&& table_entries(self.offset_y) == seeded_entries(channels.offset_y)
    }
}

impl NoiseChannels {
    /// The channels of the shake with the given seed: its tables have the
    /// seed itself and the two seeds after it.
    pub open spec fn spec_from_seed(seed: u32) -> NoiseChannels {
        NoiseChannels {
            seed,
            rotation: seed,
            offset_x: seed_after(seed, 1),
            offset_y: seed_after(seed, 2),
        }
    }

    /// The three tables have three different seeds.
    pub open spec fn distinct(self) -> bool {
        self.rotation != self.offset_x && self.rotation != self.offset_y && self.offset_x
            != self.offset_y
    }

    /// The channels of the shake with the given seed.
    #[verifier::when_used_as_spec(spec_from_seed)]
    pub fn from_seed(seed: u32) -> (channels: NoiseChannels)
        ensures
            channels == NoiseChannels::spec_from_seed(seed),
            channels.distinct(),
    {
        NoiseChannels {
            seed,
            rotation: seed,
            offset_x: seed.wrapping_add(1),
            offset_y: seed.wrapping_add(2),
        }
    }

    /// The channels of a shake whose seed is drawn at random, from all seeds
    /// but the last.
    pub fn draw() -> (channels: NoiseChannels)
        ensures
            channels == NoiseChannels::from_seed(channels.seed),
            channels.seed < u32::MAX,
    {
        let seed: u32 = random_in(u32::MIN, u32::MAX);
        NoiseChannels::from_seed(seed)
    }

    /// Builds the tables of the three channels, each from its seed.
    pub fn tables(&self) -> (tables: NoiseTables)
        ensures
            tables.built_from(*self),
    {
        NoiseTables {
            rotation: seeded_table(self.rotation),
            offset_x: seeded_table(self.offset_x),
            offset_y: seeded_table(self.offset_y),
        }
    }
}

/// The tables of a shake are those of its seed and of the two seeds after it,
/// and no two of the three seeds are the same.
pub proof fn lemma_channels_follow_seed(seed: u32)
    ensures
        NoiseChannels::from_seed(seed).seed == seed,
        NoiseChannels::from_seed(seed).rotation == seed,
        seed <= u32::MAX - 2 ==> NoiseChannels::from_seed(seed).offset_x == seed + 1,
        seed <= u32::MAX - 2 ==> NoiseChannels::from_seed(seed).offset_y == seed + 2,
        NoiseChannels::from_seed(seed).distinct(),
{
}

/// Shakes with the same seed have the same channels, and shakes with
/// different seeds have different ones.
pub proof fn lemma_channels_determined_by_seed(a: u32, b: u32)
    ensures
        a == b <==> NoiseChannels::from_seed(a) == NoiseChannels::from_seed(b),
{
}

/// Tables built twice from the same channels hold the same entries: what a
/// shake samples depends on its seed and on nothing else.
pub proof fn lemma_same_channels_same_tables(
    channels: NoiseChannels,
    first: NoiseTables,
    second: NoiseTables,
)
    requires
        first.built_from(channels),
        second.built_from(channels),
    ensures
        table_entries(first.rotation) == table_entries(second.rotation),
        table_entries(first.offset_x) == table_entries(second.offset_x),
        table_entries(first.offset_y) == table_entries(second.offset_y),
{
}

} // verus!
