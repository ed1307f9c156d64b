//! The options of a run, once they are read from the command line.

use vstd::prelude::*;

verus! {

/// Download RIB files by specifying an output folder and a date.
/// The downloaded files will then be parsed (existing files are not re-downloaded).
#[derive(Debug)]
pub struct DownloadArgs {
    /// Download RIBs to this directory
    pub ribs_path: String,
    /// Download RIBs for yyyy-mm-dd
    pub ribs_ymd: String,
}

/// Parse a RIB file which already exists locally - split across multiple threads.
#[derive(Debug)]
pub struct FileArgs {
    /// Path to an existing MRT file to parse
    pub rib_file: String,
}

/// Parse RIB files which already exist locally - each file by a different thread.
#[derive(Debug)]
pub struct FilesArgs {
    /// List of existing MRT files to parse
    pub rib_files: Vec<String>,
}

/// Where the RIB files of a run come from.
#[derive(Debug)]
pub enum RibsSource {
    Download(DownloadArgs),
    File(FileArgs),
    Files(FilesArgs),
}

/// Scan MRT RIB dumps, looking for tier 1 ASNs and communities
#[derive(Debug)]
pub struct CliArgs {
    /// Run with debug level logging
    pub debug: bool,
    pub ribs_source: RibsSource,
    /// Serialise result to JSON file
    pub json: String,
    /// Number of threads to use for parsing MRT files
    pub threads: u32,
}

impl CliArgs {
    /// The directory to download to. Only a run that downloads has one.
    pub fn get_ribs_path(&self) -> (r: &str)
        requires
            self.ribs_source is Download,
        ensures
            r@ == self.ribs_source->Download_0.ribs_path@,
    {
        match &self.ribs_source {
            RibsSource::Download(args) => args.ribs_path.as_str(),
            _ => unreached(),
        }
    }

    /// The day to download. Only a run that downloads has one.
    pub fn get_ribs_ymd(&self) -> (r: &str)
        requires
            self.ribs_source is Download,
        ensures
            r@ == self.ribs_source->Download_0.ribs_ymd@,
    {
        match &self.ribs_source {
            RibsSource::Download(args) => args.ribs_ymd.as_str(),
            _ => unreached(),
        }
    }

    /// The file to parse. Only a run on one file has one.
    pub fn get_rib_file(&self) -> (r: &String)
        requires
            self.ribs_source is File,
        ensures
            *r == self.ribs_source->File_0.rib_file,
    {
        match &self.ribs_source {
            RibsSource::File(args) => &args.rib_file,
            _ => unreached(),
        }
    }

    /// The files to parse. Only a run on a list of files has one.
    pub fn get_rib_files(&self) -> (r: &Vec<String>)
        requires
            self.ribs_source is Files,
        ensures
            *r == self.ribs_source->Files_0.rib_files,
    {
        match &self.ribs_source {
            RibsSource::Files(args) => &args.rib_files,
            _ => unreached(),
        }
    }

    /// Whether the run downloads its files.
    pub fn download(&self) -> (b: bool)
        ensures
            b == (self.ribs_source is Download),
    {
        match self.ribs_source {
            RibsSource::Download(_) => true,
            _ => false,
        }
    }
}

} // verus!
