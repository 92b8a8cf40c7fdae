pub mod electric_potential;
pub mod frequency;
pub mod length;
pub mod power;
pub mod pressure;
pub mod temperature;
pub mod time;

pub use electric_potential::UnitsElectricPotential;
pub use frequency::UnitsFrequency;
pub use length::UnitsLength;
pub use power::UnitsPower;
pub use pressure::UnitsPressure;
pub use temperature::UnitsTemperature;
pub use time::UnitsTime;
