//! Musical keys and genres.

use vstd::prelude::*;

verus! {

/// The key of a song.
#[derive(Debug, Clone, Copy, PartialEq, Eq, Structural)]
pub enum Tonality {
    C,
    CSharp,
    Db,
    D,
    DSharp,
    Eb,
    E,
    ESharp,
    F,
    FSharp,
    Gb,
    G,
    GSharp,
    Ab,
    A,
    ASharp,
    Bb,
    B,
    BSharp,
    Cm,
    CSharpM,
    Dbm,
    Dm,
    DSharpM,
    Ebm,
    Em,
    ESharpM,
    Fm,
    FSharpM,
    Gbm,
    Gm,
    GSharpM,
    Abm,
    Am,
    ASharpM,
    Bbm,
    Bm,
    BSharpM,
}

/// The parts of a key's name: the note, its accidental (`#` or `b`) and
/// whether it is minor.
pub open spec fn tonality_parts(t: Tonality) -> (char, Option<char>, bool) {
    match t {
        Tonality::C => ('C', None, false),
        Tonality::CSharp => ('C', Some('#'), false),
        Tonality::Db => ('D', Some('b'), false),
        Tonality::D => ('D', None, false),
        Tonality::DSharp => ('D', Some('#'), false),
        Tonality::Eb => ('E', Some('b'), false),
        Tonality::E => ('E', None, false),
        Tonality::ESharp => ('E', Some('#'), false),
        Tonality::F => ('F', None, false),
        Tonality::FSharp => ('F', Some('#'), false),
        Tonality::Gb => ('G', Some('b'), false),
        Tonality::G => ('G', None, false),
        Tonality::GSharp => ('G', Some('#'), false),
        Tonality::Ab => ('A', Some('b'), false),
        Tonality::A => ('A', None, false),
        Tonality::ASharp => ('A', Some('#'), false),
        Tonality::Bb => ('B', Some('b'), false),
        Tonality::B => ('B', None, false),
        Tonality::BSharp => ('B', Some('#'), false),
        Tonality::Cm => ('C', None, true),
        Tonality::CSharpM => ('C', Some('#'), true),
        Tonality::Dbm => ('D', Some('b'), true),
        Tonality::Dm => ('D', None, true),
        Tonality::DSharpM => ('D', Some('#'), true),
        Tonality::Ebm => ('E', Some('b'), true),
        Tonality::Em => ('E', None, true),
        Tonality::ESharpM => ('E', Some('#'), true),
        Tonality::Fm => ('F', None, true),
        Tonality::FSharpM => ('F', Some('#'), true),
        Tonality::Gbm => ('G', Some('b'), true),
        Tonality::Gm => ('G', None, true),
        Tonality::GSharpM => ('G', Some('#'), true),
        Tonality::Abm => ('A', Some('b'), true),
        Tonality::Am => ('A', None, true),
        Tonality::ASharpM => ('A', Some('#'), true),
        Tonality::Bbm => ('B', Some('b'), true),
        Tonality::Bm => ('B', None, true),
        Tonality::BSharpM => ('B', Some('#'), true),
    }
}

/// The name of a key, such as `C`, `F#m` or `Bb`.
pub open spec fn tonality_name(t: Tonality) -> Seq<char> {
    let (note, accidental, minor) = tonality_parts(t);
    seq![note] + (match accidental {
        Some(c) => seq![c],
        None => seq![],
    }) + (if minor {
        seq!['m']
    } else {
        seq![]
    })
}

impl Tonality {
    /// The note, the accidental (`#` or `b`) and whether the key is minor.
    pub fn parts(&self) -> (r: (char, Option<char>, bool))
        ensures
            r == tonality_parts(*self),
    {
        match self {
            Tonality::C => ('C', None, false),
            Tonality::CSharp => ('C', Some('#'), false),
            Tonality::Db => ('D', Some('b'), false),
            Tonality::D => ('D', None, false),
            Tonality::DSharp => ('D', Some('#'), false),
            Tonality::Eb => ('E', Some('b'), false),
            Tonality::E => ('E', None, false),
            Tonality::ESharp => ('E', Some('#'), false),
            Tonality::F => ('F', None, false),
            Tonality::FSharp => ('F', Some('#'), false),
            Tonality::Gb => ('G', Some('b'), false),
            Tonality::G => ('G', None, false),
            Tonality::GSharp => ('G', Some('#'), false),
            Tonality::Ab => ('A', Some('b'), false),
            Tonality::A => ('A', None, false),
            Tonality::ASharp => ('A', Some('#'), false),
            Tonality::Bb => ('B', Some('b'), false),
            Tonality::B => ('B', None, false),
            Tonality::BSharp => ('B', Some('#'), false),
            Tonality::Cm => ('C', None, true),
            Tonality::CSharpM => ('C', Some('#'), true),
            Tonality::Dbm => ('D', Some('b'), true),
            Tonality::Dm => ('D', None, true),
            Tonality::DSharpM => ('D', Some('#'), true),
            Tonality::Ebm => ('E', Some('b'), true),
            Tonality::Em => ('E', None, true),
            Tonality::ESharpM => ('E', Some('#'), true),
            Tonality::Fm => ('F', None, true),
            Tonality::FSharpM => ('F', Some('#'), true),
            Tonality::Gbm => ('G', Some('b'), true),
            Tonality::Gm => ('G', None, true),
            Tonality::GSharpM => ('G', Some('#'), true),
            Tonality::Abm => ('A', Some('b'), true),
            Tonality::Am => ('A', None, true),
            Tonality::ASharpM => ('A', Some('#'), true),
            Tonality::Bbm => ('B', Some('b'), true),
            Tonality::Bm => ('B', None, true),
            Tonality::BSharpM => ('B', Some('#'), true),
        }
    }

    /// The key's name.
    pub fn name(&self) -> (r: String)
        ensures
            r@ == tonality_name(*self),
    {
        let (note, accidental, minor) = self.parts();
        let mut r = String::new();
        r.push(note);
        if let Some(c) = accidental {
            r.push(c);
        }
        if minor {
            r.push('m');
        }
        assert(r@ =~= tonality_name(*self));
        r
    }

    /// The key with these parts. Not every note has both accidentals: there
    /// is no `Cb` and no `Fb`.
    pub fn from_parts(note: char, accidental: Option<char>, minor: bool) -> (r: Option<Tonality>)
        ensures
            forall|t: Tonality|
                r == Some(t) <==> #[trigger] tonality_parts(t) == (note, accidental, minor),
    {
        let r = match accidental {
            None => match note {
                'A' => Some(if minor { Tonality::Am } else { Tonality::A }),
                'B' => Some(if minor { Tonality::Bm } else { Tonality::B }),
                'C' => Some(if minor { Tonality::Cm } else { Tonality::C }),
                'D' => Some(if minor { Tonality::Dm } else { Tonality::D }),
                'E' => Some(if minor { Tonality::Em } else { Tonality::E }),
                'F' => Some(if minor { Tonality::Fm } else { Tonality::F }),
                'G' => Some(if minor { Tonality::Gm } else { Tonality::G }),
                _ => None,
            },
            Some('#') => match note {
                'A' => Some(if minor { Tonality::ASharpM } else { Tonality::ASharp }),
                'B' => Some(if minor { Tonality::BSharpM } else { Tonality::BSharp }),
                'C' => Some(if minor { Tonality::CSharpM } else { Tonality::CSharp }),
                'D' => Some(if minor { Tonality::DSharpM } else { Tonality::DSharp }),
                'E' => Some(if minor { Tonality::ESharpM } else { Tonality::ESharp }),
                'F' => Some(if minor { Tonality::FSharpM } else { Tonality::FSharp }),
                'G' => Some(if minor { Tonality::GSharpM } else { Tonality::GSharp }),
                _ => None,
            },
            Some('b') => match note {
                'A' => Some(if minor { Tonality::Abm } else { Tonality::Ab }),
                'B' => Some(if minor { Tonality::Bbm } else { Tonality::Bb }),
                'D' => Some(if minor { Tonality::Dbm } else { Tonality::Db }),
                'E' => Some(if minor { Tonality::Ebm } else { Tonality::Eb }),
                'G' => Some(if minor { Tonality::Gbm } else { Tonality::Gb }),
                _ => None,
            },
            Some(_) => None,
        };
        r
    }
}

/// A key is found again by the parts of its name.
pub proof fn tonalities_are_told_apart_by_their_parts(a: Tonality, b: Tonality)
    ensures
        tonality_parts(a) == tonality_parts(b) ==> a == b,
{
}

/// The genre of a song.
#[derive(Debug, Clone, Copy, PartialEq, Eq, Structural)]
pub enum Genre {
    Acoustic,
    Alternative,
    Axe,
    Blues,
    BossaNova,
    Choro,
    Classical,
    Country,
    DeathMetal,
    Disco,
    Electronic,
    Emo,
    Folk,
    Forro,
    Funk,
    Gaucho,
    Gospel,
    Grunge,
    HardRock,
    HeavyMetal,
    HipHop,
    House,
    Indie,
    Jazz,
    KPop,
    Latin,
    LoFi,
    Metal,
    MPB,
    Pagode,
    Pop,
    PowerMetal,
    ProgressiveRock,
    PsychedelicRock,
    Punk,
    Reggae,
    Reggaeton,
    RnB,
    Rock,
    Samba,
    Sertanejo,
    Ska,
    Soul,
    SymphonicMetal,
    Techno,
    ThrashMetal,
    SoftRock,
    ClassicRock,
    PopRock,
    PowerBallad,
    FolkRock,
    ArenaRock,
    GarageRock,
    IndieRock,
    PostRock,
    SurfRock,
    GlamRock,
    StonerRock,
    SouthernRock,
    BluesRock,
    RockAndRoll,
    AlternativeRock,
    IndustrialRock,
    NuMetal,
    BlackMetal,
    DoomMetal,
    GrooveMetal,
    Metalcore,
    Deathcore,
    Grindcore,
    IndustrialMetal,
    GothicMetal,
    FolkMetal,
    PostPunk,
    PopPunk,
    SkaPunk,
    HardcorePunk,
    NewWave,
    Dance,
    EDM,
    DrumAndBass,
    Dubstep,
    Trance,
    Ambient,
    Chillout,
    Synthpop,
    Industrial,
    Trap,
    Drill,
    Afrobeat,
    Grime,
    FunkCarioca,
    Piseiro,
    Brega,
    Frevo,
    Arrocha,
    WorldMusic,
    Flamenco,
    Tango,
    Fado,
    Other,
}

} // verus!
