//! The parts of the metadata schema that hold no measured quantity:
//! annotations, references, files and the closed lists of kinds.
use vstd::prelude::*;

pub use crate::convert::Convert;
pub use crate::units::{
    UnitsElectricPotential, UnitsFrequency, UnitsLength, UnitsPower, UnitsPressure,
    UnitsTemperature, UnitsTime,
};

verus! {

#[derive(Clone, Debug)]
pub struct Annotation {
    pub id: String,
    pub namespace: Option<String>,
    pub annotator: Option<String>,
    pub description: Option<String>,
    pub annotation_ref: Vec<AnnotationRef>,
}

#[derive(Clone, Debug)]
pub struct AnnotationRef {
    pub id: String,
}

#[derive(Clone, Debug)]
pub enum ArcType {
    Hg,
    Xe,
    HgXe,
    Other,
}

#[derive(Clone, Debug)]
pub struct BinData {
    pub compression: BinDataCompressionType,
    pub big_endian: bool,
    pub length: i64,
    pub content: String,
}

impl BinData {
    /// The compression of binary data that names none.
    pub fn default_compression() -> (value: BinDataCompressionType)
        ensures
            value == BinDataCompressionType::Uncompressed,
    {
        BinDataCompressionType::Uncompressed
    }
}

#[derive(Clone, Debug)]
pub enum BinDataCompressionType {
    Zlib,
    Bzip2,
    Uncompressed,
}

#[derive(Clone, Debug)]
pub struct BinaryFile {
    pub file_name: String,
    pub size: i64,
    pub mime_type: Option<String>,
    pub content: BinaryFileContent,
}

#[derive(Clone, Debug)]
pub enum BinaryFileContent {
    External(External),
    BinData(BinData),
}

#[derive(Clone, Debug)]
pub enum BinningType {
    _1X1,
    _2X2,
    _4X4,
    _8X8,
    Other,
}

#[derive(Clone, Debug)]
pub struct BooleanAnnotation {
    pub id: String,
    pub namespace: Option<String>,
    pub annotator: Option<String>,
    pub description: Option<String>,
    pub annotation_ref: Vec<AnnotationRef>,
    pub value: bool,
}

#[derive(Clone, Debug)]
pub enum ChannelAcquisitionModeType {
    WideField,
    LaserScanningConfocalMicroscopy,
    SpinningDiskConfocal,
    SlitScanConfocal,
    MultiPhotonMicroscopy,
    StructuredIllumination,
    SingleMoleculeImaging,
    TotalInternalReflection,
    FluorescenceLifetime,
    SpectralImaging,
    FluorescenceCorrelationSpectroscopy,
    NearFieldScanningOpticalMicroscopy,
    SecondHarmonicGenerationImaging,
    Palm,
    Storm,
    Sted,
    Tirf,
    Fsm,
    Lcm,
    Other,
    BrightField,
    SweptFieldConfocal,
    Spim,
}

#[derive(Clone, Debug)]
pub enum ChannelContrastMethodType {
    Brightfield,
    Phase,
    Dic,
    HoffmanModulation,
    ObliqueIllumination,
    PolarizedLight,
    Darkfield,
    Fluorescence,
    Other,
}

#[derive(Clone, Debug)]
pub enum ChannelIlluminationType {
    Transmitted,
    Epifluorescence,
    Oblique,
    NonLinear,
    Other,
}

#[derive(Clone, Debug)]
pub struct CommentAnnotation {
    pub id: String,
    pub namespace: Option<String>,
    pub annotator: Option<String>,
    pub description: Option<String>,
    pub annotation_ref: Vec<AnnotationRef>,
    pub value: String,
}

#[derive(Clone, Debug)]
pub struct Dataset {
    pub name: Option<String>,
    pub id: String,
    pub description: Option<String>,
    pub experimenter_ref: Option<AnnotationRef>,
    pub experimenter_group_ref: Option<AnnotationRef>,
    pub image_ref: Vec<AnnotationRef>,
    pub annotation_ref: Vec<AnnotationRef>,
}

#[derive(Clone, Debug)]
pub enum DetectorType {
    Ccd,
    IntensifiedCcd,
    AnalogVideo,
    Pmt,
    Photodiode,
    Spectroscopy,
    LifetimeImaging,
    CorrelationSpectroscopy,
    Ftir,
    Emccd,
    Apd,
    Cmos,
    Ebccd,
    Other,
}

#[derive(Clone, Debug)]
pub struct Dichroic {
    pub manufacturer: Option<String>,
    pub model: Option<String>,
    pub serial_number: Option<String>,
    pub lot_number: Option<String>,
    pub id: String,
    pub annotation_ref: Vec<AnnotationRef>,
}

#[derive(Clone, Debug)]
pub enum ExperimentItemType {
    Fp,
    Fret,
    TimeLapse,
    FourDPlus,
    Screen,
    Immunocytochemistry,
    Immunofluorescence,
    Fish,
    Electrophysiology,
    IonImaging,
    Colocalization,
    PgiDocumentation,
    FluorescenceLifetime,
    SpectralImaging,
    Photobleaching,
    Spim,
    Other,
}

#[derive(Clone, Debug)]
pub struct ExperimentType(pub Vec<ExperimentItemType>);

#[derive(Clone, Debug)]
pub struct Experimenter {
    pub id: String,
    pub first_name: Option<String>,
    pub middle_name: Option<String>,
    pub last_name: Option<String>,
    pub email: Option<String>,
    pub institution: Option<String>,
    pub user_name: Option<String>,
    pub annotation_ref: Vec<AnnotationRef>,
}

#[derive(Clone, Debug)]
pub struct ExperimenterGroup {
    pub name: Option<String>,
    pub id: String,
    pub description: Option<String>,
    pub experimenter_ref: Vec<AnnotationRef>,
    pub leader: Vec<AnnotationRef>,
    pub annotation_ref: Vec<AnnotationRef>,
}

#[derive(Clone, Debug)]
pub struct External {
    pub href: String,
    pub sha_1: String,
    pub compression: BinDataCompressionType,
}

impl External {
    /// The compression of an external file that names none.
    pub fn default_compression() -> (value: BinDataCompressionType)
        ensures
            value == BinDataCompressionType::Uncompressed,
    {
        BinDataCompressionType::Uncompressed
    }
}

#[derive(Clone, Debug)]
pub enum FilamentType {
    Incandescent,
    Halogen,
    Other,
}

#[derive(Clone, Debug)]
pub struct FileAnnotation {
    pub id: String,
    pub namespace: Option<String>,
    pub annotator: Option<String>,
    pub description: Option<String>,
    pub annotation_ref: Vec<AnnotationRef>,
    pub binary_file: BinaryFile,
}

#[derive(Clone, Debug)]
pub struct FilterSet {
    pub manufacturer: Option<String>,
    pub model: Option<String>,
    pub serial_number: Option<String>,
    pub lot_number: Option<String>,
    pub id: String,
    pub excitation_filter_ref: Vec<AnnotationRef>,
    pub dichroic_ref: Option<AnnotationRef>,
    pub emission_filter_ref: Vec<AnnotationRef>,
}

#[derive(Clone, Debug)]
pub enum FilterType {
    Dichroic,
    LongPass,
    ShortPass,
    BandPass,
    MultiPass,
    NeutralDensity,
    Tuneable,
    Other,
}

#[derive(Clone, Debug)]
pub struct Folder {
    pub id: String,
    pub name: Option<String>,
    pub description: Option<String>,
    pub folder_ref: Vec<AnnotationRef>,
    pub image_ref: Vec<AnnotationRef>,
    pub roi_ref: Vec<AnnotationRef>,
    pub annotation_ref: Vec<AnnotationRef>,
}

#[derive(Clone, Debug)]
pub enum FontFamilyType {
    Serif,
    SansSerif,
    Cursive,
    Fantasy,
    Monospace,
}

#[derive(Clone, Debug)]
pub enum LaserLaserMediumType {
    Cu,
    Ag,
    ArFl,
    ArCl,
    KrFl,
    KrCl,
    XeFl,
    XeCl,
    XeBr,
    N,
    Ar,
    Kr,
    Xe,
    HeNe,
    HeCd,
    Co,
    Co2,
    H2O,
    Hfl,
    NdGlass,
    NdYag,
    ErGlass,
    ErYag,
    HoYlf,
    HoYag,
    Ruby,
    TiSapphire,
    Alexandrite,
    Rhodamine6G,
    CoumarinC30,
    GaAs,
    GaAlAs,
    Eminus,
    Other,
}

#[derive(Clone, Debug)]
pub enum LaserPulseType {
    Cw,
    Single,
    Qswitched,
    Repetitive,
    ModeLocked,
    Other,
}

#[derive(Clone, Debug)]
pub enum LaserType {
    Excimer,
    Gas,
    MetalVapor,
    SolidState,
    Dye,
    Semiconductor,
    FreeElectron,
    Other,
}

#[derive(Clone, Debug)]
pub struct LightPath {
    pub excitation_filter_ref: Vec<AnnotationRef>,
    pub dichroic_ref: Option<AnnotationRef>,
    pub emission_filter_ref: Vec<AnnotationRef>,
    pub annotation_ref: Vec<AnnotationRef>,
}

#[derive(Clone, Debug)]
pub struct LongAnnotation {
    pub id: String,
    pub namespace: Option<String>,
    pub annotator: Option<String>,
    pub description: Option<String>,
    pub annotation_ref: Vec<AnnotationRef>,
    pub value: i64,
}

#[derive(Clone, Debug)]
pub struct MapType {
    pub m: Vec<MapM>,
}

#[derive(Clone, Debug)]
pub struct MapAnnotation {
    pub id: String,
    pub namespace: Option<String>,
    pub annotator: Option<String>,
    pub description: Option<String>,
    pub annotation_ref: Vec<AnnotationRef>,
    pub value: MapType,
}

#[derive(Clone, Debug)]
pub struct MapM {
    pub k: Option<String>,
    pub content: String,
}

#[derive(Clone, Debug)]
pub enum MarkerType {
    Arrow,
}

#[derive(Clone, Debug)]
pub struct MetadataOnly;

#[derive(Clone, Debug)]
pub enum MicrobeamManipulationItemType {
    Frap,
    Flip,
    InverseFrap,
    Photoablation,
    Photoactivation,
    Uncaging,
    OpticalTrapping,
    Other,
}

#[derive(Clone, Debug)]
pub struct MicrobeamManipulationType(pub Vec<MicrobeamManipulationItemType>);

#[derive(Clone, Debug)]
pub struct Microscope {
    pub manufacturer: Option<String>,
    pub model: Option<String>,
    pub serial_number: Option<String>,
    pub lot_number: Option<String>,
    pub type_: Option<MicroscopeType>,
}

#[derive(Clone, Debug)]
pub enum MicroscopeType {
    Upright,
    Inverted,
    Dissection,
    Electrophysiology,
    Other,
}

#[derive(Clone, Debug)]
pub enum NamingConventionType {
    Letter,
    Number,
}

#[derive(Clone, Debug)]
pub enum ObjectiveCorrectionType {
    Uv,
    PlanApo,
    PlanFluor,
    SuperFluor,
    VioletCorrected,
    Achro,
    Achromat,
    Fluor,
    Fl,
    Fluar,
    Neofluar,
    Fluotar,
    Apo,
    PlanNeofluar,
    Other,
}

#[derive(Clone, Debug)]
pub enum ObjectiveImmersionType {
    Oil,
    Water,
    WaterDipping,
    Air,
    Multi,
    Glycerol,
    Other,
}

#[derive(Clone, Debug)]
pub enum ObjectiveSettingsMediumType {
    Air,
    Oil,
    Water,
    Glycerol,
    Other,
}

#[derive(Clone, Debug)]
pub struct OmeBinaryOnly {
    pub metadata_file: String,
    pub uuid: String,
}

#[derive(Clone, Debug)]
pub enum PixelType {
    Int8,
    Int16,
    Int32,
    Uint8,
    Uint16,
    Uint32,
    Float,
    Double,
    Complex,
    DoubleComplex,
    Bit,
}

#[derive(Clone, Debug)]
pub enum PixelsDimensionOrderType {
    Xyzct,
    Xyztc,
    Xyctz,
    Xyczt,
    Xytcz,
    Xytzc,
}

#[derive(Clone, Debug)]
pub struct PlateAcquisition {
    pub id: String,
    pub name: Option<String>,
    pub end_time: Option<String>,
    pub start_time: Option<String>,
    pub maximum_field_count: Option<i32>,
    pub description: Option<String>,
    pub well_sample_ref: Vec<AnnotationRef>,
    pub annotation_ref: Vec<AnnotationRef>,
}

#[derive(Clone, Debug)]
pub struct Project {
    pub name: Option<String>,
    pub id: String,
    pub description: Option<String>,
    pub experimenter_ref: Option<AnnotationRef>,
    pub experimenter_group_ref: Option<AnnotationRef>,
    pub dataset_ref: Vec<AnnotationRef>,
    pub annotation_ref: Vec<AnnotationRef>,
}

#[derive(Clone, Debug)]
pub struct Reagent {
    pub id: String,
    pub name: Option<String>,
    pub reagent_identifier: Option<String>,
    pub description: Option<String>,
    pub annotation_ref: Vec<AnnotationRef>,
}

#[derive(Clone, Debug)]
pub struct Rights {
    pub rights_holder: Option<String>,
    pub rights_held: Option<String>,
}

#[derive(Clone, Debug)]
pub struct Screen {
    pub id: String,
    pub name: Option<String>,
    pub protocol_identifier: Option<String>,
    pub protocol_description: Option<String>,
    pub reagent_set_description: Option<String>,
    pub reagent_set_identifier: Option<String>,
    pub type_: Option<String>,
    pub description: Option<String>,
    pub reagent: Vec<Reagent>,
    pub plate_ref: Vec<AnnotationRef>,
    pub annotation_ref: Vec<AnnotationRef>,
}

#[derive(Clone, Debug)]
pub enum ShapeFillRuleType {
    EvenOdd,
    NonZero,
}

#[derive(Clone, Debug)]
pub enum ShapeFontStyleType {
    Bold,
    BoldItalic,
    Italic,
    Normal,
}

#[derive(Clone, Debug)]
pub struct TiffData {
    pub ifd: i32,
    pub first_z: i32,
    pub first_t: i32,
    pub first_c: i32,
    pub plane_count: Option<i32>,
    pub uuid: Option<TiffDataUuid>,
}

impl TiffData {
    /// The directory that a block starts at when it names none.
    pub fn default_ifd() -> (value: i32)
        ensures
            value == 0,
    {
        0
    }

    /// The first Z section of a block that names none.
    pub fn default_first_z() -> (value: i32)
        ensures
            value == 0,
    {
        0
    }

    /// The first time point of a block that names none.
    pub fn default_first_t() -> (value: i32)
        ensures
            value == 0,
    {
        0
    }

    /// The first channel of a block that names none.
    pub fn default_first_c() -> (value: i32)
        ensures
            value == 0,
    {
        0
    }
}

#[derive(Clone, Debug)]
pub struct TiffDataUuid {
    pub file_name: Option<String>,
    pub content: String,
}

#[derive(Clone, Debug)]
pub struct XmlAnnotation {
    pub id: String,
    pub namespace: Option<String>,
    pub annotator: Option<String>,
    pub description: Option<String>,
    pub annotation_ref: Vec<AnnotationRef>,
    pub value: XmlAnnotationValue,
}

#[derive(Clone, Debug)]
pub struct XmlAnnotationValue;

} // verus!
