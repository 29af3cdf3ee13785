//! Numbers that are held within fixed bounds.
//!
//! Each setting with a limited range has a type of its own. A value of such
//! a type can only be made through `new`, which refuses a number outside
//! the bounds, so whoever holds a value knows that it lies within them.

use vstd::prelude::*;

verus! {

/// Priority of the game process, from normal (0) to highest (2): 0 to 2.
#[derive(Debug, Clone, Copy, PartialEq, Eq, Structural)]
pub struct ProcessPriority {
    value: i32,
}

impl ProcessPriority {
    /// The least number that a value can hold.
    pub const MIN_VALUE: i32 = 0;

    /// The greatest number that a value can hold.
    pub const MAX_VALUE: i32 = 2;

    #[verifier::type_invariant]
    spec fn in_range(self) -> bool {
        0 <= self.value <= 2
    }

    /// The number held.
    pub closed spec fn view(self) -> int {
        self.value as int
    }

    /// The value that holds `n`. Meant for a number within the bounds.
    pub closed spec fn holding(n: int) -> ProcessPriority {
        ProcessPriority { value: n as i32 }
    }

    /// Holds `n`, if it lies within the bounds.
    pub fn new(n: i32) -> (r: Option<ProcessPriority>)
        ensures
            r is Some <==> 0 <= n <= 2,
            r matches Some(v) ==> v@ == n && v == Self::holding(n as int),
    {
        if 0 <= n && n <= 2 {
            Some(ProcessPriority { value: n })
        } else {
            None
        }
    }

    /// The number held.
    pub fn get(self) -> (n: i32)
        ensures
            n == self@,
            0 <= n <= 2,
    {
        proof {
            use_type_invariant(&self);
        }
        self.value
    }

    /// A value is known by the number it holds: two values that hold the
    /// same number are the same value.
    pub proof fn lemma_holding(self)
        ensures
            Self::holding(self@) == self,
            forall|n: int| 0 <= n <= 2 ==> (#[trigger] Self::holding(n))@ == n,
    {
    }
}

impl Default for ProcessPriority {
    /// The number within the bounds that is nearest to zero.
    fn default() -> (r: ProcessPriority)
        ensures
            r@ == 0,
            r == Self::holding(0),
    {
        ProcessPriority { value: 0 }
    }
}

/// A whole number that is not negative and lies below the largest `i32`: 0 to 2147483646.
#[derive(Debug, Clone, Copy, PartialEq, Eq, Structural)]
pub struct PositiveInt {
    value: i32,
}

impl PositiveInt {
    /// The least number that a value can hold.
    pub const MIN_VALUE: i32 = 0;

    /// The greatest number that a value can hold.
    pub const MAX_VALUE: i32 = 2147483646;

    #[verifier::type_invariant]
    spec fn in_range(self) -> bool {
        0 <= self.value <= 2147483646
    }

    /// The number held.
    pub closed spec fn view(self) -> int {
        self.value as int
    }

    /// The value that holds `n`. Meant for a number within the bounds.
    pub closed spec fn holding(n: int) -> PositiveInt {
        PositiveInt { value: n as i32 }
    }

    /// Holds `n`, if it lies within the bounds.
    pub fn new(n: i32) -> (r: Option<PositiveInt>)
        ensures
            r is Some <==> 0 <= n <= 2147483646,
            r matches Some(v) ==> v@ == n && v == Self::holding(n as int),
    {
        if 0 <= n && n <= 2147483646 {
            Some(PositiveInt { value: n })
        } else {
            None
        }
    }

    /// The number held.
    pub fn get(self) -> (n: i32)
        ensures
            n == self@,
            0 <= n <= 2147483646,
    {
        proof {
            use_type_invariant(&self);
        }
        self.value
    }

    /// A value is known by the number it holds: two values that hold the
    /// same number are the same value.
    pub proof fn lemma_holding(self)
        ensures
            Self::holding(self@) == self,
            forall|n: int| 0 <= n <= 2147483646 ==> (#[trigger] Self::holding(n))@ == n,
    {
    }
}

impl Default for PositiveInt {
    /// The number within the bounds that is nearest to zero.
    fn default() -> (r: PositiveInt)
        ensures
            r@ == 0,
            r == Self::holding(0),
    {
        PositiveInt { value: 0 }
    }
}

/// Strength of the smoothing of turns while a demo plays: 1 to 16.
#[derive(Debug, Clone, Copy, PartialEq, Eq, Structural)]
pub struct SmoothTurnsFactor {
    value: i32,
}

impl SmoothTurnsFactor {
    /// The least number that a value can hold.
    pub const MIN_VALUE: i32 = 1;

    /// The greatest number that a value can hold.
    pub const MAX_VALUE: i32 = 16;

    #[verifier::type_invariant]
    spec fn in_range(self) -> bool {
        1 <= self.value <= 16
    }

    /// The number held.
    pub closed spec fn view(self) -> int {
        self.value as int
    }

    /// The value that holds `n`. Meant for a number within the bounds.
    pub closed spec fn holding(n: int) -> SmoothTurnsFactor {
        SmoothTurnsFactor { value: n as i32 }
    }

    /// Holds `n`, if it lies within the bounds.
    pub fn new(n: i32) -> (r: Option<SmoothTurnsFactor>)
        ensures
            r is Some <==> 1 <= n <= 16,
            r matches Some(v) ==> v@ == n && v == Self::holding(n as int),
    {
        if 1 <= n && n <= 16 {
            Some(SmoothTurnsFactor { value: n })
        } else {
            None
        }
    }

    /// The number held.
    pub fn get(self) -> (n: i32)
        ensures
            n == self@,
            1 <= n <= 16,
    {
        proof {
            use_type_invariant(&self);
        }
        self.value
    }

    /// A value is known by the number it holds: two values that hold the
    /// same number are the same value.
    pub proof fn lemma_holding(self)
        ensures
            Self::holding(self@) == self,
            forall|n: int| 1 <= n <= 16 ==> (#[trigger] Self::holding(n))@ == n,
    {
    }
}

impl Default for SmoothTurnsFactor {
    /// The number within the bounds that is nearest to zero.
    fn default() -> (r: SmoothTurnsFactor)
        ensures
            r@ == 1,
            r == Self::holding(1),
    {
        SmoothTurnsFactor { value: 1 }
    }
}

/// How a weapon sprite is aligned while it attacks: 0 to 3.
#[derive(Debug, Clone, Copy, PartialEq, Eq, Structural)]
pub struct WeaponAttackAlignment {
    value: i32,
}

impl WeaponAttackAlignment {
    /// The least number that a value can hold.
    pub const MIN_VALUE: i32 = 0;

    /// The greatest number that a value can hold.
    pub const MAX_VALUE: i32 = 3;

    #[verifier::type_invariant]
    spec fn in_range(self) -> bool {
        0 <= self.value <= 3
    }

    /// The number held.
    pub closed spec fn view(self) -> int {
        self.value as int
    }

    /// The value that holds `n`. Meant for a number within the bounds.
    pub closed spec fn holding(n: int) -> WeaponAttackAlignment {
        WeaponAttackAlignment { value: n as i32 }
    }

    /// Holds `n`, if it lies within the bounds.
    pub fn new(n: i32) -> (r: Option<WeaponAttackAlignment>)
        ensures
            r is Some <==> 0 <= n <= 3,
            r matches Some(v) ==> v@ == n && v == Self::holding(n as int),
    {
        if 0 <= n && n <= 3 {
            Some(WeaponAttackAlignment { value: n })
        } else {
            None
        }
    }

    /// The number held.
    pub fn get(self) -> (n: i32)
        ensures
            n == self@,
            0 <= n <= 3,
    {
        proof {
            use_type_invariant(&self);
        }
        self.value
    }

    /// A value is known by the number it holds: two values that hold the
    /// same number are the same value.
    pub proof fn lemma_holding(self)
        ensures
            Self::holding(self@) == self,
            forall|n: int| 0 <= n <= 3 ==> (#[trigger] Self::holding(n))@ == n,
    {
    }
}

impl Default for WeaponAttackAlignment {
    /// The number within the bounds that is nearest to zero.
    fn default() -> (r: WeaponAttackAlignment)
        ensures
            r@ == 0,
            r == Self::holding(0),
    {
        WeaponAttackAlignment { value: 0 }
    }
}

/// Number of helper dogs that accompany the player: 0 to 3.
#[derive(Debug, Clone, Copy, PartialEq, Eq, Structural)]
pub struct PlayerHelpers {
    value: i32,
}

impl PlayerHelpers {
    /// The least number that a value can hold.
    pub const MIN_VALUE: i32 = 0;

    /// The greatest number that a value can hold.
    pub const MAX_VALUE: i32 = 3;

    #[verifier::type_invariant]
    spec fn in_range(self) -> bool {
        0 <= self.value <= 3
    }

    /// The number held.
    pub closed spec fn view(self) -> int {
        self.value as int
    }

    /// The value that holds `n`. Meant for a number within the bounds.
    pub closed spec fn holding(n: int) -> PlayerHelpers {
        PlayerHelpers { value: n as i32 }
    }

    /// Holds `n`, if it lies within the bounds.
    pub fn new(n: i32) -> (r: Option<PlayerHelpers>)
        ensures
            r is Some <==> 0 <= n <= 3,
            r matches Some(v) ==> v@ == n && v == Self::holding(n as int),
    {
        if 0 <= n && n <= 3 {
            Some(PlayerHelpers { value: n })
        } else {
            None
        }
    }

    /// The number held.
    pub fn get(self) -> (n: i32)
        ensures
            n == self@,
            0 <= n <= 3,
    {
        proof {
            use_type_invariant(&self);
        }
        self.value
    }

    /// A value is known by the number it holds: two values that hold the
    /// same number are the same value.
    pub proof fn lemma_holding(self)
        ensures
            Self::holding(self@) == self,
            forall|n: int| 0 <= n <= 3 ==> (#[trigger] Self::holding(n))@ == n,
    {
    }
}

impl Default for PlayerHelpers {
    /// The number within the bounds that is nearest to zero.
    fn default() -> (r: PlayerHelpers)
        ensures
            r@ == 0,
            r == Self::holding(0),
    {
        PlayerHelpers { value: 0 }
    }
}

/// Distance that friendly monsters keep from the player: 0 to 999.
#[derive(Debug, Clone, Copy, PartialEq, Eq, Structural)]
pub struct FriendDistance {
    value: i32,
}

impl FriendDistance {
    /// The least number that a value can hold.
    pub const MIN_VALUE: i32 = 0;

    /// The greatest number that a value can hold.
    pub const MAX_VALUE: i32 = 999;

    #[verifier::type_invariant]
    spec fn in_range(self) -> bool {
        0 <= self.value <= 999
    }

    /// The number held.
    pub closed spec fn view(self) -> int {
        self.value as int
    }

    /// The value that holds `n`. Meant for a number within the bounds.
    pub closed spec fn holding(n: int) -> FriendDistance {
        FriendDistance { value: n as i32 }
    }

    /// Holds `n`, if it lies within the bounds.
    pub fn new(n: i32) -> (r: Option<FriendDistance>)
        ensures
            r is Some <==> 0 <= n <= 999,
            r matches Some(v) ==> v@ == n && v == Self::holding(n as int),
    {
        if 0 <= n && n <= 999 {
            Some(FriendDistance { value: n })
        } else {
            None
        }
    }

    /// The number held.
    pub fn get(self) -> (n: i32)
        ensures
            n == self@,
            0 <= n <= 999,
    {
        proof {
            use_type_invariant(&self);
        }
        self.value
    }

    /// A value is known by the number it holds: two values that hold the
    /// same number are the same value.
    pub proof fn lemma_holding(self)
        ensures
            Self::holding(self@) == self,
            forall|n: int| 0 <= n <= 999 ==> (#[trigger] Self::holding(n))@ == n,
    {
    }
}

impl Default for FriendDistance {
    /// The number within the bounds that is nearest to zero.
    fn default() -> (r: FriendDistance)
        ensures
            r@ == 0,
            r == Self::holding(0),
    {
        FriendDistance { value: 0 }
    }
}

/// Sample rate of the sound output, in hertz: 11025 to 48000.
#[derive(Debug, Clone, Copy, PartialEq, Eq, Structural)]
pub struct SampleRate {
    value: i32,
}

impl SampleRate {
    /// The least number that a value can hold.
    pub const MIN_VALUE: i32 = 11025;

    /// The greatest number that a value can hold.
    pub const MAX_VALUE: i32 = 48000;

    #[verifier::type_invariant]
    spec fn in_range(self) -> bool {
        11025 <= self.value <= 48000
    }

    /// The number held.
    pub closed spec fn view(self) -> int {
        self.value as int
    }

    /// The value that holds `n`. Meant for a number within the bounds.
    pub closed spec fn holding(n: int) -> SampleRate {
        SampleRate { value: n as i32 }
    }

    /// Holds `n`, if it lies within the bounds.
    pub fn new(n: i32) -> (r: Option<SampleRate>)
        ensures
            r is Some <==> 11025 <= n <= 48000,
            r matches Some(v) ==> v@ == n && v == Self::holding(n as int),
    {
        if 11025 <= n && n <= 48000 {
            Some(SampleRate { value: n })
        } else {
            None
        }
    }

    /// The number held.
    pub fn get(self) -> (n: i32)
        ensures
            n == self@,
            11025 <= n <= 48000,
    {
        proof {
            use_type_invariant(&self);
        }
        self.value
    }

    /// A value is known by the number it holds: two values that hold the
    /// same number are the same value.
    pub proof fn lemma_holding(self)
        ensures
            Self::holding(self@) == self,
            forall|n: int| 11025 <= n <= 48000 ==> (#[trigger] Self::holding(n))@ == n,
    {
    }
}

impl Default for SampleRate {
    /// The number within the bounds that is nearest to zero.
    fn default() -> (r: SampleRate)
        ensures
            r@ == 11025,
            r == Self::holding(11025),
    {
        SampleRate { value: 11025 }
    }
}

/// Volume of sound effects or music: 0 to 15.
#[derive(Debug, Clone, Copy, PartialEq, Eq, Structural)]
pub struct Volume {
    value: i32,
}

impl Volume {
    /// The least number that a value can hold.
    pub const MIN_VALUE: i32 = 0;

    /// The greatest number that a value can hold.
    pub const MAX_VALUE: i32 = 15;

    #[verifier::type_invariant]
    spec fn in_range(self) -> bool {
        0 <= self.value <= 15
    }

    /// The number held.
    pub closed spec fn view(self) -> int {
        self.value as int
    }

    /// The value that holds `n`. Meant for a number within the bounds.
    pub closed spec fn holding(n: int) -> Volume {
        Volume { value: n as i32 }
    }

    /// Holds `n`, if it lies within the bounds.
    pub fn new(n: i32) -> (r: Option<Volume>)
        ensures
            r is Some <==> 0 <= n <= 15,
            r matches Some(v) ==> v@ == n && v == Self::holding(n as int),
    {
        if 0 <= n && n <= 15 {
            Some(Volume { value: n })
        } else {
            None
        }
    }

    /// The number held.
    pub fn get(self) -> (n: i32)
        ensures
            n == self@,
            0 <= n <= 15,
    {
        proof {
            use_type_invariant(&self);
        }
        self.value
    }

    /// A value is known by the number it holds: two values that hold the
    /// same number are the same value.
    pub proof fn lemma_holding(self)
        ensures
            Self::holding(self@) == self,
            forall|n: int| 0 <= n <= 15 ==> (#[trigger] Self::holding(n))@ == n,
    {
    }
}

impl Default for Volume {
    /// The number within the bounds that is nearest to zero.
    fn default() -> (r: Volume)
        ensures
            r@ == 0,
            r == Self::holding(0),
    {
        Volume { value: 0 }
    }
}

/// Number of sound channels mixed at once: 1 to 32.
#[derive(Debug, Clone, Copy, PartialEq, Eq, Structural)]
pub struct SoundChannels {
    value: i32,
}

impl SoundChannels {
    /// The least number that a value can hold.
    pub const MIN_VALUE: i32 = 1;

    /// The greatest number that a value can hold.
    pub const MAX_VALUE: i32 = 32;

    #[verifier::type_invariant]
    spec fn in_range(self) -> bool {
        1 <= self.value <= 32
    }

    /// The number held.
    pub closed spec fn view(self) -> int {
        self.value as int
    }

    /// The value that holds `n`. Meant for a number within the bounds.
    pub closed spec fn holding(n: int) -> SoundChannels {
        SoundChannels { value: n as i32 }
    }

    /// Holds `n`, if it lies within the bounds.
    pub fn new(n: i32) -> (r: Option<SoundChannels>)
        ensures
            r is Some <==> 1 <= n <= 32,
            r matches Some(v) ==> v@ == n && v == Self::holding(n as int),
    {
        if 1 <= n && n <= 32 {
            Some(SoundChannels { value: n })
        } else {
            None
        }
    }

    /// The number held.
    pub fn get(self) -> (n: i32)
        ensures
            n == self@,
            1 <= n <= 32,
    {
        proof {
            use_type_invariant(&self);
        }
        self.value
    }

    /// A value is known by the number it holds: two values that hold the
    /// same number are the same value.
    pub proof fn lemma_holding(self)
        ensures
            Self::holding(self@) == self,
            forall|n: int| 1 <= n <= 32 ==> (#[trigger] Self::holding(n))@ == n,
    {
    }
}

impl Default for SoundChannels {
    /// The number within the bounds that is nearest to zero.
    fn default() -> (r: SoundChannels)
        ensures
            r@ == 1,
            r == Self::holding(1),
    {
        SoundChannels { value: 1 }
    }
}

/// Gain of a software synthesiser, in percent: 0 to 1000.
#[derive(Debug, Clone, Copy, PartialEq, Eq, Structural)]
pub struct Gain {
    value: i32,
}

impl Gain {
    /// The least number that a value can hold.
    pub const MIN_VALUE: i32 = 0;

    /// The greatest number that a value can hold.
    pub const MAX_VALUE: i32 = 1000;

    #[verifier::type_invariant]
    spec fn in_range(self) -> bool {
        0 <= self.value <= 1000
    }

    /// The number held.
    pub closed spec fn view(self) -> int {
        self.value as int
    }

    /// The value that holds `n`. Meant for a number within the bounds.
    pub closed spec fn holding(n: int) -> Gain {
        Gain { value: n as i32 }
    }

    /// Holds `n`, if it lies within the bounds.
    pub fn new(n: i32) -> (r: Option<Gain>)
        ensures
            r is Some <==> 0 <= n <= 1000,
            r matches Some(v) ==> v@ == n && v == Self::holding(n as int),
    {
        if 0 <= n && n <= 1000 {
            Some(Gain { value: n })
        } else {
            None
        }
    }

    /// The number held.
    pub fn get(self) -> (n: i32)
        ensures
            n == self@,
            0 <= n <= 1000,
    {
        proof {
            use_type_invariant(&self);
        }
        self.value
    }

    /// A value is known by the number it holds: two values that hold the
    /// same number are the same value.
    pub proof fn lemma_holding(self)
        ensures
            Self::holding(self@) == self,
            forall|n: int| 0 <= n <= 1000 ==> (#[trigger] Self::holding(n))@ == n,
    {
    }
}

impl Default for Gain {
    /// The number within the bounds that is nearest to zero.
    fn default() -> (r: Gain)
        ensures
            r@ == 0,
            r == Self::holding(0),
    {
        Gain { value: 0 }
    }
}

/// A share of a whole, in percent: 0 to 100.
#[derive(Debug, Clone, Copy, PartialEq, Eq, Structural)]
pub struct Percentage {
    value: i32,
}

impl Percentage {
    /// The least number that a value can hold.
    pub const MIN_VALUE: i32 = 0;

    /// The greatest number that a value can hold.
    pub const MAX_VALUE: i32 = 100;

    #[verifier::type_invariant]
    spec fn in_range(self) -> bool {
        0 <= self.value <= 100
    }

    /// The number held.
    pub closed spec fn view(self) -> int {
        self.value as int
    }

    /// The value that holds `n`. Meant for a number within the bounds.
    pub closed spec fn holding(n: int) -> Percentage {
        Percentage { value: n as i32 }
    }

    /// Holds `n`, if it lies within the bounds.
    pub fn new(n: i32) -> (r: Option<Percentage>)
        ensures
            r is Some <==> 0 <= n <= 100,
            r matches Some(v) ==> v@ == n && v == Self::holding(n as int),
    {
        if 0 <= n && n <= 100 {
            Some(Percentage { value: n })
        } else {
            None
        }
    }

    /// The number held.
    pub fn get(self) -> (n: i32)
        ensures
            n == self@,
            0 <= n <= 100,
    {
        proof {
            use_type_invariant(&self);
        }
        self.value
    }

    /// A value is known by the number it holds: two values that hold the
    /// same number are the same value.
    pub proof fn lemma_holding(self)
        ensures
            Self::holding(self@) == self,
            forall|n: int| 0 <= n <= 100 ==> (#[trigger] Self::holding(n))@ == n,
    {
    }
}

impl Default for Percentage {
    /// The number within the bounds that is nearest to zero.
    fn default() -> (r: Percentage)
        ensures
            r@ == 0,
            r == Self::holding(0),
    {
        Percentage { value: 0 }
    }
}

/// A share that may exceed the whole, up to twice of it, in percent: 0 to 200.
#[derive(Debug, Clone, Copy, PartialEq, Eq, Structural)]
pub struct DoublePercentage {
    value: i32,
}

impl DoublePercentage {
    /// The least number that a value can hold.
    pub const MIN_VALUE: i32 = 0;

    /// The greatest number that a value can hold.
    pub const MAX_VALUE: i32 = 200;

    #[verifier::type_invariant]
    spec fn in_range(self) -> bool {
        0 <= self.value <= 200
    }

    /// The number held.
    pub closed spec fn view(self) -> int {
        self.value as int
    }

    /// The value that holds `n`. Meant for a number within the bounds.
    pub closed spec fn holding(n: int) -> DoublePercentage {
        DoublePercentage { value: n as i32 }
    }

    /// Holds `n`, if it lies within the bounds.
    pub fn new(n: i32) -> (r: Option<DoublePercentage>)
        ensures
            r is Some <==> 0 <= n <= 200,
            r matches Some(v) ==> v@ == n && v == Self::holding(n as int),
    {
        if 0 <= n && n <= 200 {
            Some(DoublePercentage { value: n })
        } else {
            None
        }
    }

    /// The number held.
    pub fn get(self) -> (n: i32)
        ensures
            n == self@,
            0 <= n <= 200,
    {
        proof {
            use_type_invariant(&self);
        }
        self.value
    }

    /// A value is known by the number it holds: two values that hold the
    /// same number are the same value.
    pub proof fn lemma_holding(self)
        ensures
            Self::holding(self@) == self,
            forall|n: int| 0 <= n <= 200 ==> (#[trigger] Self::holding(n))@ == n,
    {
    }
}

impl Default for DoublePercentage {
    /// The number within the bounds that is nearest to zero.
    fn default() -> (r: DoublePercentage)
        ensures
            r@ == 0,
            r == Self::holding(0),
    {
        DoublePercentage { value: 0 }
    }
}

/// Size of the view window, in blocks: 3 to 11.
#[derive(Debug, Clone, Copy, PartialEq, Eq, Structural)]
pub struct Screenblocks {
    value: i32,
}

impl Screenblocks {
    /// The least number that a value can hold.
    pub const MIN_VALUE: i32 = 3;

    /// The greatest number that a value can hold.
    pub const MAX_VALUE: i32 = 11;

    #[verifier::type_invariant]
    spec fn in_range(self) -> bool {
        3 <= self.value <= 11
    }

    /// The number held.
    pub closed spec fn view(self) -> int {
        self.value as int
    }

    /// The value that holds `n`. Meant for a number within the bounds.
    pub closed spec fn holding(n: int) -> Screenblocks {
        Screenblocks { value: n as i32 }
    }

    /// Holds `n`, if it lies within the bounds.
    pub fn new(n: i32) -> (r: Option<Screenblocks>)
        ensures
            r is Some <==> 3 <= n <= 11,
            r matches Some(v) ==> v@ == n && v == Self::holding(n as int),
    {
        if 3 <= n && n <= 11 {
            Some(Screenblocks { value: n })
        } else {
            None
        }
    }

    /// The number held.
    pub fn get(self) -> (n: i32)
        ensures
            n == self@,
            3 <= n <= 11,
    {
        proof {
            use_type_invariant(&self);
        }
        self.value
    }

    /// A value is known by the number it holds: two values that hold the
    /// same number are the same value.
    pub proof fn lemma_holding(self)
        ensures
            Self::holding(self@) == self,
            forall|n: int| 3 <= n <= 11 ==> (#[trigger] Self::holding(n))@ == n,
    {
    }
}

impl Default for Screenblocks {
    /// The number within the bounds that is nearest to zero.
    fn default() -> (r: Screenblocks)
        ensures
            r@ == 3,
            r == Self::holding(3),
    {
        Screenblocks { value: 3 }
    }
}

/// Level of gamma correction: 0 to 4.
#[derive(Debug, Clone, Copy, PartialEq, Eq, Structural)]
pub struct Gamma {
    value: i32,
}

impl Gamma {
    /// The least number that a value can hold.
    pub const MIN_VALUE: i32 = 0;

    /// The greatest number that a value can hold.
    pub const MAX_VALUE: i32 = 4;

    #[verifier::type_invariant]
    spec fn in_range(self) -> bool {
        0 <= self.value <= 4
    }

    /// The number held.
    pub closed spec fn view(self) -> int {
        self.value as int
    }

    /// The value that holds `n`. Meant for a number within the bounds.
    pub closed spec fn holding(n: int) -> Gamma {
        Gamma { value: n as i32 }
    }

    /// Holds `n`, if it lies within the bounds.
    pub fn new(n: i32) -> (r: Option<Gamma>)
        ensures
            r is Some <==> 0 <= n <= 4,
            r matches Some(v) ==> v@ == n && v == Self::holding(n as int),
    {
        if 0 <= n && n <= 4 {
            Some(Gamma { value: n })
        } else {
            None
        }
    }

    /// The number held.
    pub fn get(self) -> (n: i32)
        ensures
            n == self@,
            0 <= n <= 4,
    {
        proof {
            use_type_invariant(&self);
        }
        self.value
    }

    /// A value is known by the number it holds: two values that hold the
    /// same number are the same value.
    pub proof fn lemma_holding(self)
        ensures
            Self::holding(self@) == self,
            forall|n: int| 0 <= n <= 4 ==> (#[trigger] Self::holding(n))@ == n,
    {
    }
}

impl Default for Gamma {
    /// The number within the bounds that is nearest to zero.
    fn default() -> (r: Gamma)
        ensures
            r@ == 0,
            r == Self::holding(0),
    {
        Gamma { value: 0 }
    }
}

/// Depth of a frame buffer, in bits: 16 to 32.
#[derive(Debug, Clone, Copy, PartialEq, Eq, Structural)]
pub struct BufferBits {
    value: i32,
}

impl BufferBits {
    /// The least number that a value can hold.
    pub const MIN_VALUE: i32 = 16;

    /// The greatest number that a value can hold.
    pub const MAX_VALUE: i32 = 32;

    #[verifier::type_invariant]
    spec fn in_range(self) -> bool {
        16 <= self.value <= 32
    }

    /// The number held.
    pub closed spec fn view(self) -> int {
        self.value as int
    }

    /// The value that holds `n`. Meant for a number within the bounds.
    pub closed spec fn holding(n: int) -> BufferBits {
        BufferBits { value: n as i32 }
    }

    /// Holds `n`, if it lies within the bounds.
    pub fn new(n: i32) -> (r: Option<BufferBits>)
        ensures
            r is Some <==> 16 <= n <= 32,
            r matches Some(v) ==> v@ == n && v == Self::holding(n as int),
    {
        if 16 <= n && n <= 32 {
            Some(BufferBits { value: n })
        } else {
            None
        }
    }

    /// The number held.
    pub fn get(self) -> (n: i32)
        ensures
            n == self@,
            16 <= n <= 32,
    {
        proof {
            use_type_invariant(&self);
        }
        self.value
    }

    /// A value is known by the number it holds: two values that hold the
    /// same number are the same value.
    pub proof fn lemma_holding(self)
        ensures
            Self::holding(self@) == self,
            forall|n: int| 16 <= n <= 32 ==> (#[trigger] Self::holding(n))@ == n,
    {
    }
}

impl Default for BufferBits {
    /// The number within the bounds that is nearest to zero.
    fn default() -> (r: BufferBits)
        ensures
            r@ == 16,
            r == Self::holding(16),
    {
        BufferBits { value: 16 }
    }
}

/// Chosen level of gamma correction: 0 to 4.
#[derive(Debug, Clone, Copy, PartialEq, Eq, Structural)]
pub struct GammaCorrectionLevel {
    value: i32,
}

impl GammaCorrectionLevel {
    /// The least number that a value can hold.
    pub const MIN_VALUE: i32 = 0;

    /// The greatest number that a value can hold.
    pub const MAX_VALUE: i32 = 4;

    #[verifier::type_invariant]
    spec fn in_range(self) -> bool {
        0 <= self.value <= 4
    }

    /// The number held.
    pub closed spec fn view(self) -> int {
        self.value as int
    }

    /// The value that holds `n`. Meant for a number within the bounds.
    pub closed spec fn holding(n: int) -> GammaCorrectionLevel {
        GammaCorrectionLevel { value: n as i32 }
    }

    /// Holds `n`, if it lies within the bounds.
    pub fn new(n: i32) -> (r: Option<GammaCorrectionLevel>)
        ensures
            r is Some <==> 0 <= n <= 4,
            r matches Some(v) ==> v@ == n && v == Self::holding(n as int),
    {
        if 0 <= n && n <= 4 {
            Some(GammaCorrectionLevel { value: n })
        } else {
            None
        }
    }

    /// The number held.
    pub fn get(self) -> (n: i32)
        ensures
            n == self@,
            0 <= n <= 4,
    {
        proof {
            use_type_invariant(&self);
        }
        self.value
    }

    /// A value is known by the number it holds: two values that hold the
    /// same number are the same value.
    pub proof fn lemma_holding(self)
        ensures
            Self::holding(self@) == self,
            forall|n: int| 0 <= n <= 4 ==> (#[trigger] Self::holding(n))@ == n,
    {
    }
}

impl Default for GammaCorrectionLevel {
    /// The number within the bounds that is nearest to zero.
    fn default() -> (r: GammaCorrectionLevel)
        ensures
            r@ == 0,
            r == Self::holding(0),
    {
        GammaCorrectionLevel { value: 0 }
    }
}

/// Depth offset of sprites against walls: 0 to 5.
#[derive(Debug, Clone, Copy, PartialEq, Eq, Structural)]
pub struct SpriteOffset {
    value: i32,
}

impl SpriteOffset {
    /// The least number that a value can hold.
    pub const MIN_VALUE: i32 = 0;

    /// The greatest number that a value can hold.
    pub const MAX_VALUE: i32 = 5;

    #[verifier::type_invariant]
    spec fn in_range(self) -> bool {
        0 <= self.value <= 5
    }

    /// The number held.
    pub closed spec fn view(self) -> int {
        self.value as int
    }

    /// The value that holds `n`. Meant for a number within the bounds.
    pub closed spec fn holding(n: int) -> SpriteOffset {
        SpriteOffset { value: n as i32 }
    }

    /// Holds `n`, if it lies within the bounds.
    pub fn new(n: i32) -> (r: Option<SpriteOffset>)
        ensures
            r is Some <==> 0 <= n <= 5,
            r matches Some(v) ==> v@ == n && v == Self::holding(n as int),
    {
        if 0 <= n && n <= 5 {
            Some(SpriteOffset { value: n })
        } else {
            None
        }
    }

    /// The number held.
    pub fn get(self) -> (n: i32)
        ensures
            n == self@,
            0 <= n <= 5,
    {
        proof {
            use_type_invariant(&self);
        }
        self.value
    }

    /// A value is known by the number it holds: two values that hold the
    /// same number are the same value.
    pub proof fn lemma_holding(self)
        ensures
            Self::holding(self@) == self,
            forall|n: int| 0 <= n <= 5 ==> (#[trigger] Self::holding(n))@ == n,
    {
    }
}

impl Default for SpriteOffset {
    /// The number within the bounds that is nearest to zero.
    fn default() -> (r: SpriteOffset)
        ensures
            r@ == 0,
            r == Self::holding(0),
    {
        SpriteOffset { value: 0 }
    }
}

/// Detail of the sky dome: 1 to 32.
#[derive(Debug, Clone, Copy, PartialEq, Eq, Structural)]
pub struct SkyDetail {
    value: i32,
}

impl SkyDetail {
    /// The least number that a value can hold.
    pub const MIN_VALUE: i32 = 1;

    /// The greatest number that a value can hold.
    pub const MAX_VALUE: i32 = 32;

    #[verifier::type_invariant]
    spec fn in_range(self) -> bool {
        1 <= self.value <= 32
    }

    /// The number held.
    pub closed spec fn view(self) -> int {
        self.value as int
    }

    /// The value that holds `n`. Meant for a number within the bounds.
    pub closed spec fn holding(n: int) -> SkyDetail {
        SkyDetail { value: n as i32 }
    }

    /// Holds `n`, if it lies within the bounds.
    pub fn new(n: i32) -> (r: Option<SkyDetail>)
        ensures
            r is Some <==> 1 <= n <= 32,
            r matches Some(v) ==> v@ == n && v == Self::holding(n as int),
    {
        if 1 <= n && n <= 32 {
            Some(SkyDetail { value: n })
        } else {
            None
        }
    }

    /// The number held.
    pub fn get(self) -> (n: i32)
        ensures
            n == self@,
            1 <= n <= 32,
    {
        proof {
            use_type_invariant(&self);
        }
        self.value
    }

    /// A value is known by the number it holds: two values that hold the
    /// same number are the same value.
    pub proof fn lemma_holding(self)
        ensures
            Self::holding(self@) == self,
            forall|n: int| 1 <= n <= 32 ==> (#[trigger] Self::holding(n))@ == n,
    {
    }
}

impl Default for SkyDetail {
    /// The number within the bounds that is nearest to zero.
    fn default() -> (r: SkyDetail)
        ensures
            r@ == 1,
            r == Self::holding(1),
    {
        SkyDetail { value: 1 }
    }
}

/// Width of a cell of the automap grid, in map units: 8 to 256.
#[derive(Debug, Clone, Copy, PartialEq, Eq, Structural)]
pub struct MapGridSize {
    value: i32,
}

impl MapGridSize {
    /// The least number that a value can hold.
    pub const MIN_VALUE: i32 = 8;

    /// The greatest number that a value can hold.
    pub const MAX_VALUE: i32 = 256;

    #[verifier::type_invariant]
    spec fn in_range(self) -> bool {
        8 <= self.value <= 256
    }

    /// The number held.
    pub closed spec fn view(self) -> int {
        self.value as int
    }

    /// The value that holds `n`. Meant for a number within the bounds.
    pub closed spec fn holding(n: int) -> MapGridSize {
        MapGridSize { value: n as i32 }
    }

    /// Holds `n`, if it lies within the bounds.
    pub fn new(n: i32) -> (r: Option<MapGridSize>)
        ensures
            r is Some <==> 8 <= n <= 256,
            r matches Some(v) ==> v@ == n && v == Self::holding(n as int),
    {
        if 8 <= n && n <= 256 {
            Some(MapGridSize { value: n })
        } else {
            None
        }
    }

    /// The number held.
    pub fn get(self) -> (n: i32)
        ensures
            n == self@,
            8 <= n <= 256,
    {
        proof {
            use_type_invariant(&self);
        }
        self.value
    }

    /// A value is known by the number it holds: two values that hold the
    /// same number are the same value.
    pub proof fn lemma_holding(self)
        ensures
            Self::holding(self@) == self,
            forall|n: int| 8 <= n <= 256 ==> (#[trigger] Self::holding(n))@ == n,
    {
    }
}

impl Default for MapGridSize {
    /// The number within the bounds that is nearest to zero.
    fn default() -> (r: MapGridSize)
        ensures
            r@ == 8,
            r == Self::holding(8),
    {
        MapGridSize { value: 8 }
    }
}

/// Speed at which the automap scrolls: 1 to 32.
#[derive(Debug, Clone, Copy, PartialEq, Eq, Structural)]
pub struct MapScrollSpeed {
    value: i32,
}

impl MapScrollSpeed {
    /// The least number that a value can hold.
    pub const MIN_VALUE: i32 = 1;

    /// The greatest number that a value can hold.
    pub const MAX_VALUE: i32 = 32;

    #[verifier::type_invariant]
    spec fn in_range(self) -> bool {
        1 <= self.value <= 32
    }

    /// The number held.
    pub closed spec fn view(self) -> int {
        self.value as int
    }

    /// The value that holds `n`. Meant for a number within the bounds.
    pub closed spec fn holding(n: int) -> MapScrollSpeed {
        MapScrollSpeed { value: n as i32 }
    }

    /// Holds `n`, if it lies within the bounds.
    pub fn new(n: i32) -> (r: Option<MapScrollSpeed>)
        ensures
            r is Some <==> 1 <= n <= 32,
            r matches Some(v) ==> v@ == n && v == Self::holding(n as int),
    {
        if 1 <= n && n <= 32 {
            Some(MapScrollSpeed { value: n })
        } else {
            None
        }
    }

    /// The number held.
    pub fn get(self) -> (n: i32)
        ensures
            n == self@,
            1 <= n <= 32,
    {
        proof {
            use_type_invariant(&self);
        }
        self.value
    }

    /// A value is known by the number it holds: two values that hold the
    /// same number are the same value.
    pub proof fn lemma_holding(self)
        ensures
            Self::holding(self@) == self,
            forall|n: int| 1 <= n <= 32 ==> (#[trigger] Self::holding(n))@ == n,
    {
    }
}

impl Default for MapScrollSpeed {
    /// The number within the bounds that is nearest to zero.
    fn default() -> (r: MapScrollSpeed)
        ensures
            r@ == 1,
            r == Self::holding(1),
    {
        MapScrollSpeed { value: 1 }
    }
}

/// Horizontal position on the 320 pixels wide screen: 0 to 319.
#[derive(Debug, Clone, Copy, PartialEq, Eq, Structural)]
pub struct XPosition {
    value: i32,
}

impl XPosition {
    /// The least number that a value can hold.
    pub const MIN_VALUE: i32 = 0;

    /// The greatest number that a value can hold.
    pub const MAX_VALUE: i32 = 319;

    #[verifier::type_invariant]
    spec fn in_range(self) -> bool {
        0 <= self.value <= 319
    }

    /// The number held.
    pub closed spec fn view(self) -> int {
        self.value as int
    }

    /// The value that holds `n`. Meant for a number within the bounds.
    pub closed spec fn holding(n: int) -> XPosition {
        XPosition { value: n as i32 }
    }

    /// Holds `n`, if it lies within the bounds.
    pub fn new(n: i32) -> (r: Option<XPosition>)
        ensures
            r is Some <==> 0 <= n <= 319,
            r matches Some(v) ==> v@ == n && v == Self::holding(n as int),
    {
        if 0 <= n && n <= 319 {
            Some(XPosition { value: n })
        } else {
            None
        }
    }

    /// The number held.
    pub fn get(self) -> (n: i32)
        ensures
            n == self@,
            0 <= n <= 319,
    {
        proof {
            use_type_invariant(&self);
        }
        self.value
    }

    /// A value is known by the number it holds: two values that hold the
    /// same number are the same value.
    pub proof fn lemma_holding(self)
        ensures
            Self::holding(self@) == self,
            forall|n: int| 0 <= n <= 319 ==> (#[trigger] Self::holding(n))@ == n,
    {
    }
}

impl Default for XPosition {
    /// The number within the bounds that is nearest to zero.
    fn default() -> (r: XPosition)
        ensures
            r@ == 0,
            r == Self::holding(0),
    {
        XPosition { value: 0 }
    }
}

/// Vertical position on the 200 pixels high screen: 0 to 199.
#[derive(Debug, Clone, Copy, PartialEq, Eq, Structural)]
pub struct YPosition {
    value: i32,
}

impl YPosition {
    /// The least number that a value can hold.
    pub const MIN_VALUE: i32 = 0;

    /// The greatest number that a value can hold.
    pub const MAX_VALUE: i32 = 199;

    #[verifier::type_invariant]
    spec fn in_range(self) -> bool {
        0 <= self.value <= 199
    }

    /// The number held.
    pub closed spec fn view(self) -> int {
        self.value as int
    }

    /// The value that holds `n`. Meant for a number within the bounds.
    pub closed spec fn holding(n: int) -> YPosition {
        YPosition { value: n as i32 }
    }

    /// Holds `n`, if it lies within the bounds.
    pub fn new(n: i32) -> (r: Option<YPosition>)
        ensures
            r is Some <==> 0 <= n <= 199,
            r matches Some(v) ==> v@ == n && v == Self::holding(n as int),
    {
        if 0 <= n && n <= 199 {
            Some(YPosition { value: n })
        } else {
            None
        }
    }

    /// The number held.
    pub fn get(self) -> (n: i32)
        ensures
            n == self@,
            0 <= n <= 199,
    {
        proof {
            use_type_invariant(&self);
        }
        self.value
    }

    /// A value is known by the number it holds: two values that hold the
    /// same number are the same value.
    pub proof fn lemma_holding(self)
        ensures
            Self::holding(self@) == self,
            forall|n: int| 0 <= n <= 199 ==> (#[trigger] Self::holding(n))@ == n,
    {
    }
}

impl Default for YPosition {
    /// The number within the bounds that is nearest to zero.
    fn default() -> (r: YPosition)
        ensures
            r@ == 0,
            r == Self::holding(0),
    {
        YPosition { value: 0 }
    }
}

/// A width on the 320 pixels wide screen: 0 to 320.
#[derive(Debug, Clone, Copy, PartialEq, Eq, Structural)]
pub struct Width {
    value: i32,
}

impl Width {
    /// The least number that a value can hold.
    pub const MIN_VALUE: i32 = 0;

    /// The greatest number that a value can hold.
    pub const MAX_VALUE: i32 = 320;

    #[verifier::type_invariant]
    spec fn in_range(self) -> bool {
        0 <= self.value <= 320
    }

    /// The number held.
    pub closed spec fn view(self) -> int {
        self.value as int
    }

    /// The value that holds `n`. Meant for a number within the bounds.
    pub closed spec fn holding(n: int) -> Width {
        Width { value: n as i32 }
    }

    /// Holds `n`, if it lies within the bounds.
    pub fn new(n: i32) -> (r: Option<Width>)
        ensures
            r is Some <==> 0 <= n <= 320,
            r matches Some(v) ==> v@ == n && v == Self::holding(n as int),
    {
        if 0 <= n && n <= 320 {
            Some(Width { value: n })
        } else {
            None
        }
    }

    /// The number held.
    pub fn get(self) -> (n: i32)
        ensures
            n == self@,
            0 <= n <= 320,
    {
        proof {
            use_type_invariant(&self);
        }
        self.value
    }

    /// A value is known by the number it holds: two values that hold the
    /// same number are the same value.
    pub proof fn lemma_holding(self)
        ensures
            Self::holding(self@) == self,
            forall|n: int| 0 <= n <= 320 ==> (#[trigger] Self::holding(n))@ == n,
    {
    }
}

impl Default for Width {
    /// The number within the bounds that is nearest to zero.
    fn default() -> (r: Width)
        ensures
            r@ == 0,
            r == Self::holding(0),
    {
        Width { value: 0 }
    }
}

/// A height on the 200 pixels high screen: 0 to 200.
#[derive(Debug, Clone, Copy, PartialEq, Eq, Structural)]
pub struct Height {
    value: i32,
}

impl Height {
    /// The least number that a value can hold.
    pub const MIN_VALUE: i32 = 0;

    /// The greatest number that a value can hold.
    pub const MAX_VALUE: i32 = 200;

    #[verifier::type_invariant]
    spec fn in_range(self) -> bool {
        0 <= self.value <= 200
    }

    /// The number held.
    pub closed spec fn view(self) -> int {
        self.value as int
    }

    /// The value that holds `n`. Meant for a number within the bounds.
    pub closed spec fn holding(n: int) -> Height {
        Height { value: n as i32 }
    }

    /// Holds `n`, if it lies within the bounds.
    pub fn new(n: i32) -> (r: Option<Height>)
        ensures
            r is Some <==> 0 <= n <= 200,
            r matches Some(v) ==> v@ == n && v == Self::holding(n as int),
    {
        if 0 <= n && n <= 200 {
            Some(Height { value: n })
        } else {
            None
        }
    }

    /// The number held.
    pub fn get(self) -> (n: i32)
        ensures
            n == self@,
            0 <= n <= 200,
    {
        proof {
            use_type_invariant(&self);
        }
        self.value
    }

    /// A value is known by the number it holds: two values that hold the
    /// same number are the same value.
    pub proof fn lemma_holding(self)
        ensures
            Self::holding(self@) == self,
            forall|n: int| 0 <= n <= 200 ==> (#[trigger] Self::holding(n))@ == n,
    {
    }
}

impl Default for Height {
    /// The number within the bounds that is nearest to zero.
    fn default() -> (r: Height)
        ensures
            r@ == 0,
            r == Self::holding(0),
    {
        Height { value: 0 }
    }
}

/// Number of message lines shown at once: 1 to 16.
#[derive(Debug, Clone, Copy, PartialEq, Eq, Structural)]
pub struct MessageLines {
    value: i32,
}

impl MessageLines {
    /// The least number that a value can hold.
    pub const MIN_VALUE: i32 = 1;

    /// The greatest number that a value can hold.
    pub const MAX_VALUE: i32 = 16;

    #[verifier::type_invariant]
    spec fn in_range(self) -> bool {
        1 <= self.value <= 16
    }

    /// The number held.
    pub closed spec fn view(self) -> int {
        self.value as int
    }

    /// The value that holds `n`. Meant for a number within the bounds.
    pub closed spec fn holding(n: int) -> MessageLines {
        MessageLines { value: n as i32 }
    }

    /// Holds `n`, if it lies within the bounds.
    pub fn new(n: i32) -> (r: Option<MessageLines>)
        ensures
            r is Some <==> 1 <= n <= 16,
            r matches Some(v) ==> v@ == n && v == Self::holding(n as int),
    {
        if 1 <= n && n <= 16 {
            Some(MessageLines { value: n })
        } else {
            None
        }
    }

    /// The number held.
    pub fn get(self) -> (n: i32)
        ensures
            n == self@,
            1 <= n <= 16,
    {
        proof {
            use_type_invariant(&self);
        }
        self.value
    }

    /// A value is known by the number it holds: two values that hold the
    /// same number are the same value.
    pub proof fn lemma_holding(self)
        ensures
            Self::holding(self@) == self,
            forall|n: int| 1 <= n <= 16 ==> (#[trigger] Self::holding(n))@ == n,
    {
    }
}

impl Default for MessageLines {
    /// The number within the bounds that is nearest to zero.
    fn default() -> (r: MessageLines)
        ensures
            r@ == 1,
            r == Self::holding(1),
    {
        MessageLines { value: 1 }
    }
}

/// Number of the head-up display layout: 0 to 100.
#[derive(Debug, Clone, Copy, PartialEq, Eq, Structural)]
pub struct HudNum {
    value: i32,
}

impl HudNum {
    /// The least number that a value can hold.
    pub const MIN_VALUE: i32 = 0;

    /// The greatest number that a value can hold.
    pub const MAX_VALUE: i32 = 100;

    #[verifier::type_invariant]
    spec fn in_range(self) -> bool {
        0 <= self.value <= 100
    }

    /// The number held.
    pub closed spec fn view(self) -> int {
        self.value as int
    }

    /// The value that holds `n`. Meant for a number within the bounds.
    pub closed spec fn holding(n: int) -> HudNum {
        HudNum { value: n as i32 }
    }

    /// Holds `n`, if it lies within the bounds.
    pub fn new(n: i32) -> (r: Option<HudNum>)
        ensures
            r is Some <==> 0 <= n <= 100,
            r matches Some(v) ==> v@ == n && v == Self::holding(n as int),
    {
        if 0 <= n && n <= 100 {
            Some(HudNum { value: n })
        } else {
            None
        }
    }

    /// The number held.
    pub fn get(self) -> (n: i32)
        ensures
            n == self@,
            0 <= n <= 100,
    {
        proof {
            use_type_invariant(&self);
        }
        self.value
    }

    /// A value is known by the number it holds: two values that hold the
    /// same number are the same value.
    pub proof fn lemma_holding(self)
        ensures
            Self::holding(self@) == self,
            forall|n: int| 0 <= n <= 100 ==> (#[trigger] Self::holding(n))@ == n,
    {
    }
}

impl Default for HudNum {
    /// The number within the bounds that is nearest to zero.
    fn default() -> (r: HudNum)
        ensures
            r@ == 0,
            r == Self::holding(0),
    {
        HudNum { value: 0 }
    }
}

/// Step by which the game speed changes: 0 to 1000.
#[derive(Debug, Clone, Copy, PartialEq, Eq, Structural)]
pub struct SpeedStep {
    value: i32,
}

impl SpeedStep {
    /// The least number that a value can hold.
    pub const MIN_VALUE: i32 = 0;

    /// The greatest number that a value can hold.
    pub const MAX_VALUE: i32 = 1000;

    #[verifier::type_invariant]
    spec fn in_range(self) -> bool {
        0 <= self.value <= 1000
    }

    /// The number held.
    pub closed spec fn view(self) -> int {
        self.value as int
    }

    /// The value that holds `n`. Meant for a number within the bounds.
    pub closed spec fn holding(n: int) -> SpeedStep {
        SpeedStep { value: n as i32 }
    }

    /// Holds `n`, if it lies within the bounds.
    pub fn new(n: i32) -> (r: Option<SpeedStep>)
        ensures
            r is Some <==> 0 <= n <= 1000,
            r matches Some(v) ==> v@ == n && v == Self::holding(n as int),
    {
        if 0 <= n && n <= 1000 {
            Some(SpeedStep { value: n })
        } else {
            None
        }
    }

    /// The number held.
    pub fn get(self) -> (n: i32)
        ensures
            n == self@,
            0 <= n <= 1000,
    {
        proof {
            use_type_invariant(&self);
        }
        self.value
    }

    /// A value is known by the number it holds: two values that hold the
    /// same number are the same value.
    pub proof fn lemma_holding(self)
        ensures
            Self::holding(self@) == self,
            forall|n: int| 0 <= n <= 1000 ==> (#[trigger] Self::holding(n))@ == n,
    {
    }
}

impl Default for SpeedStep {
    /// The number within the bounds that is nearest to zero.
    fn default() -> (r: SpeedStep)
        ensures
            r@ == 0,
            r == Self::holding(0),
    {
        SpeedStep { value: 0 }
    }
}

/// Upper limit of frames per second: 16 to 300.
#[derive(Debug, Clone, Copy, PartialEq, Eq, Structural)]
pub struct CapFps {
    value: i32,
}

impl CapFps {
    /// The least number that a value can hold.
    pub const MIN_VALUE: i32 = 16;

    /// The greatest number that a value can hold.
    pub const MAX_VALUE: i32 = 300;

    #[verifier::type_invariant]
    spec fn in_range(self) -> bool {
        16 <= self.value <= 300
    }

    /// The number held.
    pub closed spec fn view(self) -> int {
        self.value as int
    }

    /// The value that holds `n`. Meant for a number within the bounds.
    pub closed spec fn holding(n: int) -> CapFps {
        CapFps { value: n as i32 }
    }

    /// Holds `n`, if it lies within the bounds.
    pub fn new(n: i32) -> (r: Option<CapFps>)
        ensures
            r is Some <==> 16 <= n <= 300,
            r matches Some(v) ==> v@ == n && v == Self::holding(n as int),
    {
        if 16 <= n && n <= 300 {
            Some(CapFps { value: n })
        } else {
            None
        }
    }

    /// The number held.
    pub fn get(self) -> (n: i32)
        ensures
            n == self@,
            16 <= n <= 300,
    {
        proof {
            use_type_invariant(&self);
        }
        self.value
    }

    /// A value is known by the number it holds: two values that hold the
    /// same number are the same value.
    pub proof fn lemma_holding(self)
        ensures
            Self::holding(self@) == self,
            forall|n: int| 16 <= n <= 300 ==> (#[trigger] Self::holding(n))@ == n,
    {
    }
}

impl Default for CapFps {
    /// The number within the bounds that is nearest to zero.
    fn default() -> (r: CapFps)
        ensures
            r@ == 16,
            r == Self::holding(16),
    {
        CapFps { value: 16 }
    }
}

/// Factor by which the screen is multiplied: 1 to 4.
#[derive(Debug, Clone, Copy, PartialEq, Eq, Structural)]
pub struct ScreenFactor {
    value: i32,
}

impl ScreenFactor {
    /// The least number that a value can hold.
    pub const MIN_VALUE: i32 = 1;

    /// The greatest number that a value can hold.
    pub const MAX_VALUE: i32 = 4;

    #[verifier::type_invariant]
    spec fn in_range(self) -> bool {
        1 <= self.value <= 4
    }

    /// The number held.
    pub closed spec fn view(self) -> int {
        self.value as int
    }

    /// The value that holds `n`. Meant for a number within the bounds.
    pub closed spec fn holding(n: int) -> ScreenFactor {
        ScreenFactor { value: n as i32 }
    }

    /// Holds `n`, if it lies within the bounds.
    pub fn new(n: i32) -> (r: Option<ScreenFactor>)
        ensures
            r is Some <==> 1 <= n <= 4,
            r matches Some(v) ==> v@ == n && v == Self::holding(n as int),
    {
        if 1 <= n && n <= 4 {
            Some(ScreenFactor { value: n })
        } else {
            None
        }
    }

    /// The number held.
    pub fn get(self) -> (n: i32)
        ensures
            n == self@,
            1 <= n <= 4,
    {
        proof {
            use_type_invariant(&self);
        }
        self.value
    }

    /// A value is known by the number it holds: two values that hold the
    /// same number are the same value.
    pub proof fn lemma_holding(self)
        ensures
            Self::holding(self@) == self,
            forall|n: int| 1 <= n <= 4 ==> (#[trigger] Self::holding(n))@ == n,
    {
    }
}

impl Default for ScreenFactor {
    /// The number within the bounds that is nearest to zero.
    fn default() -> (r: ScreenFactor)
        ensures
            r@ == 1,
            r == Self::holding(1),
    {
        ScreenFactor { value: 1 }
    }
}

/// Scale of patches, 0 for automatic: 0 to 16.
#[derive(Debug, Clone, Copy, PartialEq, Eq, Structural)]
pub struct PatchScale {
    value: i32,
}

impl PatchScale {
    /// The least number that a value can hold.
    pub const MIN_VALUE: i32 = 0;

    /// The greatest number that a value can hold.
    pub const MAX_VALUE: i32 = 16;

    #[verifier::type_invariant]
    spec fn in_range(self) -> bool {
        0 <= self.value <= 16
    }

    /// The number held.
    pub closed spec fn view(self) -> int {
        self.value as int
    }

    /// The value that holds `n`. Meant for a number within the bounds.
    pub closed spec fn holding(n: int) -> PatchScale {
        PatchScale { value: n as i32 }
    }

    /// Holds `n`, if it lies within the bounds.
    pub fn new(n: i32) -> (r: Option<PatchScale>)
        ensures
            r is Some <==> 0 <= n <= 16,
            r matches Some(v) ==> v@ == n && v == Self::holding(n as int),
    {
        if 0 <= n && n <= 16 {
            Some(PatchScale { value: n })
        } else {
            None
        }
    }

    /// The number held.
    pub fn get(self) -> (n: i32)
        ensures
            n == self@,
            0 <= n <= 16,
    {
        proof {
            use_type_invariant(&self);
        }
        self.value
    }

    /// A value is known by the number it holds: two values that hold the
    /// same number are the same value.
    pub proof fn lemma_holding(self)
        ensures
            Self::holding(self@) == self,
            forall|n: int| 0 <= n <= 16 ==> (#[trigger] Self::holding(n))@ == n,
    {
    }
}

impl Default for PatchScale {
    /// The number within the bounds that is nearest to zero.
    fn default() -> (r: PatchScale)
        ensures
            r@ == 0,
            r == Self::holding(0),
    {
        PatchScale { value: 0 }
    }
}

/// An angle of up to 90 degrees: 0 to 90.
#[derive(Debug, Clone, Copy, PartialEq, Eq, Structural)]
pub struct RightAngle {
    value: i32,
}

impl RightAngle {
    /// The least number that a value can hold.
    pub const MIN_VALUE: i32 = 0;

    /// The greatest number that a value can hold.
    pub const MAX_VALUE: i32 = 90;

    #[verifier::type_invariant]
    spec fn in_range(self) -> bool {
        0 <= self.value <= 90
    }

    /// The number held.
    pub closed spec fn view(self) -> int {
        self.value as int
    }

    /// The value that holds `n`. Meant for a number within the bounds.
    pub closed spec fn holding(n: int) -> RightAngle {
        RightAngle { value: n as i32 }
    }

    /// Holds `n`, if it lies within the bounds.
    pub fn new(n: i32) -> (r: Option<RightAngle>)
        ensures
            r is Some <==> 0 <= n <= 90,
            r matches Some(v) ==> v@ == n && v == Self::holding(n as int),
    {
        if 0 <= n && n <= 90 {
            Some(RightAngle { value: n })
        } else {
            None
        }
    }

    /// The number held.
    pub fn get(self) -> (n: i32)
        ensures
            n == self@,
            0 <= n <= 90,
    {
        proof {
            use_type_invariant(&self);
        }
        self.value
    }

    /// A value is known by the number it holds: two values that hold the
    /// same number are the same value.
    pub proof fn lemma_holding(self)
        ensures
            Self::holding(self@) == self,
            forall|n: int| 0 <= n <= 90 ==> (#[trigger] Self::holding(n))@ == n,
    {
    }
}

impl Default for RightAngle {
    /// The number within the bounds that is nearest to zero.
    fn default() -> (r: RightAngle)
        ensures
            r@ == 0,
            r == Self::holding(0),
    {
        RightAngle { value: 0 }
    }
}

/// Divisor of mouse movement while strafing: 1 to 512.
#[derive(Debug, Clone, Copy, PartialEq, Eq, Structural)]
pub struct MouseStrafeDivisor {
    value: i32,
}

impl MouseStrafeDivisor {
    /// The least number that a value can hold.
    pub const MIN_VALUE: i32 = 1;

    /// The greatest number that a value can hold.
    pub const MAX_VALUE: i32 = 512;

    #[verifier::type_invariant]
    spec fn in_range(self) -> bool {
        1 <= self.value <= 512
    }

    /// The number held.
    pub closed spec fn view(self) -> int {
        self.value as int
    }

    /// The value that holds `n`. Meant for a number within the bounds.
    pub closed spec fn holding(n: int) -> MouseStrafeDivisor {
        MouseStrafeDivisor { value: n as i32 }
    }

    /// Holds `n`, if it lies within the bounds.
    pub fn new(n: i32) -> (r: Option<MouseStrafeDivisor>)
        ensures
            r is Some <==> 1 <= n <= 512,
            r matches Some(v) ==> v@ == n && v == Self::holding(n as int),
    {
        if 1 <= n && n <= 512 {
            Some(MouseStrafeDivisor { value: n })
        } else {
            None
        }
    }

    /// The number held.
    pub fn get(self) -> (n: i32)
        ensures
            n == self@,
            1 <= n <= 512,
    {
        proof {
            use_type_invariant(&self);
        }
        self.value
    }

    /// A value is known by the number it holds: two values that hold the
    /// same number are the same value.
    pub proof fn lemma_holding(self)
        ensures
            Self::holding(self@) == self,
            forall|n: int| 1 <= n <= 512 ==> (#[trigger] Self::holding(n))@ == n,
    {
    }
}

impl Default for MouseStrafeDivisor {
    /// The number within the bounds that is nearest to zero.
    fn default() -> (r: MouseStrafeDivisor)
        ensures
            r@ == 1,
            r == Self::holding(1),
    {
        MouseStrafeDivisor { value: 1 }
    }
}

/// Farthest distance at which detail textures are drawn: 0 to 65535.
#[derive(Debug, Clone, Copy, PartialEq, Eq, Structural)]
pub struct DetailMaxDistance {
    value: i32,
}

impl DetailMaxDistance {
    /// The least number that a value can hold.
    pub const MIN_VALUE: i32 = 0;

    /// The greatest number that a value can hold.
    pub const MAX_VALUE: i32 = 65535;

    #[verifier::type_invariant]
    spec fn in_range(self) -> bool {
        0 <= self.value <= 65535
    }

    /// The number held.
    pub closed spec fn view(self) -> int {
        self.value as int
    }

    /// The value that holds `n`. Meant for a number within the bounds.
    pub closed spec fn holding(n: int) -> DetailMaxDistance {
        DetailMaxDistance { value: n as i32 }
    }

    /// Holds `n`, if it lies within the bounds.
    pub fn new(n: i32) -> (r: Option<DetailMaxDistance>)
        ensures
            r is Some <==> 0 <= n <= 65535,
            r matches Some(v) ==> v@ == n && v == Self::holding(n as int),
    {
        if 0 <= n && n <= 65535 {
            Some(DetailMaxDistance { value: n })
        } else {
            None
        }
    }

    /// The number held.
    pub fn get(self) -> (n: i32)
        ensures
            n == self@,
            0 <= n <= 65535,
    {
        proof {
            use_type_invariant(&self);
        }
        self.value
    }

    /// A value is known by the number it holds: two values that hold the
    /// same number are the same value.
    pub proof fn lemma_holding(self)
        ensures
            Self::holding(self@) == self,
            forall|n: int| 0 <= n <= 65535 ==> (#[trigger] Self::holding(n))@ == n,
    {
    }
}

impl Default for DetailMaxDistance {
    /// The number within the bounds that is nearest to zero.
    fn default() -> (r: DetailMaxDistance)
        ensures
            r@ == 0,
            r == Self::holding(0),
    {
        DetailMaxDistance { value: 0 }
    }
}

/// Number of samples for anti-aliasing: 0 to 8.
#[derive(Debug, Clone, Copy, PartialEq, Eq, Structural)]
pub struct MultisamplingLevel {
    value: i32,
}

impl MultisamplingLevel {
    /// The least number that a value can hold.
    pub const MIN_VALUE: i32 = 0;

    /// The greatest number that a value can hold.
    pub const MAX_VALUE: i32 = 8;

    #[verifier::type_invariant]
    spec fn in_range(self) -> bool {
        0 <= self.value <= 8
    }

    /// The number held.
    pub closed spec fn view(self) -> int {
        self.value as int
    }

    /// The value that holds `n`. Meant for a number within the bounds.
    pub closed spec fn holding(n: int) -> MultisamplingLevel {
        MultisamplingLevel { value: n as i32 }
    }

    /// Holds `n`, if it lies within the bounds.
    pub fn new(n: i32) -> (r: Option<MultisamplingLevel>)
        ensures
            r is Some <==> 0 <= n <= 8,
            r matches Some(v) ==> v@ == n && v == Self::holding(n as int),
    {
        if 0 <= n && n <= 8 {
            Some(MultisamplingLevel { value: n })
        } else {
            None
        }
    }

    /// The number held.
    pub fn get(self) -> (n: i32)
        ensures
            n == self@,
            0 <= n <= 8,
    {
        proof {
            use_type_invariant(&self);
        }
        self.value
    }

    /// A value is known by the number it holds: two values that hold the
    /// same number are the same value.
    pub proof fn lemma_holding(self)
        ensures
            Self::holding(self@) == self,
            forall|n: int| 0 <= n <= 8 ==> (#[trigger] Self::holding(n))@ == n,
    {
    }
}

impl Default for MultisamplingLevel {
    /// The number within the bounds that is nearest to zero.
    fn default() -> (r: MultisamplingLevel)
        ensures
            r@ == 0,
            r == Self::holding(0),
    {
        MultisamplingLevel { value: 0 }
    }
}

/// Field of view, in degrees: 20 to 160.
#[derive(Debug, Clone, Copy, PartialEq, Eq, Structural)]
pub struct Fov {
    value: i32,
}

impl Fov {
    /// The least number that a value can hold.
    pub const MIN_VALUE: i32 = 20;

    /// The greatest number that a value can hold.
    pub const MAX_VALUE: i32 = 160;

    #[verifier::type_invariant]
    spec fn in_range(self) -> bool {
        20 <= self.value <= 160
    }

    /// The number held.
    pub closed spec fn view(self) -> int {
        self.value as int
    }

    /// The value that holds `n`. Meant for a number within the bounds.
    pub closed spec fn holding(n: int) -> Fov {
        Fov { value: n as i32 }
    }

    /// Holds `n`, if it lies within the bounds.
    pub fn new(n: i32) -> (r: Option<Fov>)
        ensures
            r is Some <==> 20 <= n <= 160,
            r matches Some(v) ==> v@ == n && v == Self::holding(n as int),
    {
        if 20 <= n && n <= 160 {
            Some(Fov { value: n })
        } else {
            None
        }
    }

    /// The number held.
    pub fn get(self) -> (n: i32)
        ensures
            n == self@,
            20 <= n <= 160,
    {
        proof {
            use_type_invariant(&self);
        }
        self.value
    }

    /// A value is known by the number it holds: two values that hold the
    /// same number are the same value.
    pub proof fn lemma_holding(self)
        ensures
            Self::holding(self@) == self,
            forall|n: int| 20 <= n <= 160 ==> (#[trigger] Self::holding(n))@ == n,
    {
    }
}

impl Default for Fov {
    /// The number within the bounds that is nearest to zero.
    fn default() -> (r: Fov)
        ensures
            r@ == 20,
            r == Self::holding(20),
    {
        Fov { value: 20 }
    }
}

/// Least light level of a sector: 1 to 255.
#[derive(Debug, Clone, Copy, PartialEq, Eq, Structural)]
pub struct AmbientLight {
    value: i32,
}

impl AmbientLight {
    /// The least number that a value can hold.
    pub const MIN_VALUE: i32 = 1;

    /// The greatest number that a value can hold.
    pub const MAX_VALUE: i32 = 255;

    #[verifier::type_invariant]
    spec fn in_range(self) -> bool {
        1 <= self.value <= 255
    }

    /// The number held.
    pub closed spec fn view(self) -> int {
        self.value as int
    }

    /// The value that holds `n`. Meant for a number within the bounds.
    pub closed spec fn holding(n: int) -> AmbientLight {
        AmbientLight { value: n as i32 }
    }

    /// Holds `n`, if it lies within the bounds.
    pub fn new(n: i32) -> (r: Option<AmbientLight>)
        ensures
            r is Some <==> 1 <= n <= 255,
            r matches Some(v) ==> v@ == n && v == Self::holding(n as int),
    {
        if 1 <= n && n <= 255 {
            Some(AmbientLight { value: n })
        } else {
            None
        }
    }

    /// The number held.
    pub fn get(self) -> (n: i32)
        ensures
            n == self@,
            1 <= n <= 255,
    {
        proof {
            use_type_invariant(&self);
        }
        self.value
    }

    /// A value is known by the number it holds: two values that hold the
    /// same number are the same value.
    pub proof fn lemma_holding(self)
        ensures
            Self::holding(self@) == self,
            forall|n: int| 1 <= n <= 255 ==> (#[trigger] Self::holding(n))@ == n,
    {
    }
}

impl Default for AmbientLight {
    /// The number within the bounds that is nearest to zero.
    fn default() -> (r: AmbientLight)
        ensures
            r@ == 1,
            r == Self::holding(1),
    {
        AmbientLight { value: 1 }
    }
}

/// Gamma level of the hardware renderer: 0 to 32.
#[derive(Debug, Clone, Copy, PartialEq, Eq, Structural)]
pub struct GlGamma {
    value: i32,
}

impl GlGamma {
    /// The least number that a value can hold.
    pub const MIN_VALUE: i32 = 0;

    /// The greatest number that a value can hold.
    pub const MAX_VALUE: i32 = 32;

    #[verifier::type_invariant]
    spec fn in_range(self) -> bool {
        0 <= self.value <= 32
    }

    /// The number held.
    pub closed spec fn view(self) -> int {
        self.value as int
    }

    /// The value that holds `n`. Meant for a number within the bounds.
    pub closed spec fn holding(n: int) -> GlGamma {
        GlGamma { value: n as i32 }
    }

    /// Holds `n`, if it lies within the bounds.
    pub fn new(n: i32) -> (r: Option<GlGamma>)
        ensures
            r is Some <==> 0 <= n <= 32,
            r matches Some(v) ==> v@ == n && v == Self::holding(n as int),
    {
        if 0 <= n && n <= 32 {
            Some(GlGamma { value: n })
        } else {
            None
        }
    }

    /// The number held.
    pub fn get(self) -> (n: i32)
        ensures
            n == self@,
            0 <= n <= 32,
    {
        proof {
            use_type_invariant(&self);
        }
        self.value
    }

    /// A value is known by the number it holds: two values that hold the
    /// same number are the same value.
    pub proof fn lemma_holding(self)
        ensures
            Self::holding(self@) == self,
            forall|n: int| 0 <= n <= 32 ==> (#[trigger] Self::holding(n))@ == n,
    {
    }
}

impl Default for GlGamma {
    /// The number within the bounds that is nearest to zero.
    fn default() -> (r: GlGamma)
        ensures
            r@ == 0,
            r == Self::holding(0),
    {
        GlGamma { value: 0 }
    }
}

/// Farthest distance at which shadows are drawn: 0 to 32767.
#[derive(Debug, Clone, Copy, PartialEq, Eq, Structural)]
pub struct ShadowMaxDistance {
    value: i32,
}

impl ShadowMaxDistance {
    /// The least number that a value can hold.
    pub const MIN_VALUE: i32 = 0;

    /// The greatest number that a value can hold.
    pub const MAX_VALUE: i32 = 32767;

    #[verifier::type_invariant]
    spec fn in_range(self) -> bool {
        0 <= self.value <= 32767
    }

    /// The number held.
    pub closed spec fn view(self) -> int {
        self.value as int
    }

    /// The value that holds `n`. Meant for a number within the bounds.
    pub closed spec fn holding(n: int) -> ShadowMaxDistance {
        ShadowMaxDistance { value: n as i32 }
    }

    /// Holds `n`, if it lies within the bounds.
    pub fn new(n: i32) -> (r: Option<ShadowMaxDistance>)
        ensures
            r is Some <==> 0 <= n <= 32767,
            r matches Some(v) ==> v@ == n && v == Self::holding(n as int),
    {
        if 0 <= n && n <= 32767 {
            Some(ShadowMaxDistance { value: n })
        } else {
            None
        }
    }

    /// The number held.
    pub fn get(self) -> (n: i32)
        ensures
            n == self@,
            0 <= n <= 32767,
    {
        proof {
            use_type_invariant(&self);
        }
        self.value
    }

    /// A value is known by the number it holds: two values that hold the
    /// same number are the same value.
    pub proof fn lemma_holding(self)
        ensures
            Self::holding(self@) == self,
            forall|n: int| 0 <= n <= 32767 ==> (#[trigger] Self::holding(n))@ == n,
    {
    }
}

impl Default for ShadowMaxDistance {
    /// The number within the bounds that is nearest to zero.
    fn default() -> (r: ShadowMaxDistance)
        ensures
            r@ == 0,
            r == Self::holding(0),
    {
        ShadowMaxDistance { value: 0 }
    }
}

/// Darkness of shadows: 0 to 255.
#[derive(Debug, Clone, Copy, PartialEq, Eq, Structural)]
pub struct ShadowFactor {
    value: i32,
}

impl ShadowFactor {
    /// The least number that a value can hold.
    pub const MIN_VALUE: i32 = 0;

    /// The greatest number that a value can hold.
    pub const MAX_VALUE: i32 = 255;

    #[verifier::type_invariant]
    spec fn in_range(self) -> bool {
        0 <= self.value <= 255
    }

    /// The number held.
    pub closed spec fn view(self) -> int {
        self.value as int
    }

    /// The value that holds `n`. Meant for a number within the bounds.
    pub closed spec fn holding(n: int) -> ShadowFactor {
        ShadowFactor { value: n as i32 }
    }

    /// Holds `n`, if it lies within the bounds.
    pub fn new(n: i32) -> (r: Option<ShadowFactor>)
        ensures
            r is Some <==> 0 <= n <= 255,
            r matches Some(v) ==> v@ == n && v == Self::holding(n as int),
    {
        if 0 <= n && n <= 255 {
            Some(ShadowFactor { value: n })
        } else {
            None
        }
    }

    /// The number held.
    pub fn get(self) -> (n: i32)
        ensures
            n == self@,
            0 <= n <= 255,
    {
        proof {
            use_type_invariant(&self);
        }
        self.value
    }

    /// A value is known by the number it holds: two values that hold the
    /// same number are the same value.
    pub proof fn lemma_holding(self)
        ensures
            Self::holding(self@) == self,
            forall|n: int| 0 <= n <= 255 ==> (#[trigger] Self::holding(n))@ == n,
    {
    }
}

impl Default for ShadowFactor {
    /// The number within the bounds that is nearest to zero.
    fn default() -> (r: ShadowFactor)
        ensures
            r@ == 0,
            r == Self::holding(0),
    {
        ShadowFactor { value: 0 }
    }
}

/// Number of a weapon in the order of preference: 0 to 9.
#[derive(Debug, Clone, Copy, PartialEq, Eq, Structural)]
pub struct Weapon {
    value: i32,
}

impl Weapon {
    /// The least number that a value can hold.
    pub const MIN_VALUE: i32 = 0;

    /// The greatest number that a value can hold.
    pub const MAX_VALUE: i32 = 9;

    #[verifier::type_invariant]
    spec fn in_range(self) -> bool {
        0 <= self.value <= 9
    }

    /// The number held.
    pub closed spec fn view(self) -> int {
        self.value as int
    }

    /// The value that holds `n`. Meant for a number within the bounds.
    pub closed spec fn holding(n: int) -> Weapon {
        Weapon { value: n as i32 }
    }

    /// Holds `n`, if it lies within the bounds.
    pub fn new(n: i32) -> (r: Option<Weapon>)
        ensures
            r is Some <==> 0 <= n <= 9,
            r matches Some(v) ==> v@ == n && v == Self::holding(n as int),
    {
        if 0 <= n && n <= 9 {
            Some(Weapon { value: n })
        } else {
            None
        }
    }

    /// The number held.
    pub fn get(self) -> (n: i32)
        ensures
            n == self@,
            0 <= n <= 9,
    {
        proof {
            use_type_invariant(&self);
        }
        self.value
    }

    /// A value is known by the number it holds: two values that hold the
    /// same number are the same value.
    pub proof fn lemma_holding(self)
        ensures
            Self::holding(self@) == self,
            forall|n: int| 0 <= n <= 9 ==> (#[trigger] Self::holding(n))@ == n,
    {
    }
}

impl Default for Weapon {
    /// The number within the bounds that is nearest to zero.
    fn default() -> (r: Weapon)
        ensures
            r@ == 0,
            r == Self::holding(0),
    {
        Weapon { value: 0 }
    }
}

} // verus!
