// Identification of Adreno GPUs through the KGSL driver's get-property requests:
// locating the device node, deciding on the driver's responses (one request code,
// or several tried in order), reading the records, and classifying the chip.
pub mod chip;
pub mod property;
pub mod probe;
pub mod locator;
pub mod report;
