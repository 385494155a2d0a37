//! Fixed paths and names: the state directory the tool owns on the host, the
//! in-container mount points, and the built-in default build specification.

use vstd::prelude::*;

verus! {

/// Host directory (relative to the working directory) holding all durable state.
pub open spec fn state_dir_view() -> Seq<char> {
    ".k3scontainer"@
}

pub fn state_dir() -> (r: &'static str)
    ensures
        r@ == state_dir_view(),
{
    ".k3scontainer"
}

/// File inside the state directory holding the persisted cluster identity.
pub open spec fn cluster_name_file_view() -> Seq<char> {
    ".k3scontainer/name"@
}

pub fn cluster_name_file() -> (r: &'static str)
    ensures
        r@ == cluster_name_file_view(),
{
    ".k3scontainer/name"
}

/// File inside the state directory holding the image build specification.
pub open spec fn build_file_view() -> Seq<char> {
    ".k3scontainer/Dockerfile"@
}

pub fn build_file() -> (r: &'static str)
    ensures
        r@ == build_file_view(),
{
    ".k3scontainer/Dockerfile"
}

/// Host directory bind-mounted into the container as its data directory.
pub open spec fn data_dir_view() -> Seq<char> {
    ".k3scontainer/data"@
}

pub fn data_dir() -> (r: &'static str)
    ensures
        r@ == data_dir_view(),
{
    ".k3scontainer/data"
}

/// Prefix of every generated cluster identity.
pub open spec fn name_prefix_view() -> Seq<char> {
    "k3scontainer-"@
}

pub fn name_prefix() -> (r: &'static str)
    ensures
        r@ == name_prefix_view(),
{
    "k3scontainer-"
}

/// Suffix appended to the identity to name the runtime-storage volume.
pub open spec fn volume_suffix_view() -> Seq<char> {
    "-docker-dir-volume"@
}

pub fn volume_suffix() -> (r: &'static str)
    ensures
        r@ == volume_suffix_view(),
{
    "-docker-dir-volume"
}

/// In-container mount point for the read-only view of the host working directory.
pub open spec fn host_work_dir_mount_view() -> Seq<char> {
    "/k3scontainer/hwdm"@
}

pub fn host_work_dir_mount() -> (r: &'static str)
    ensures
        r@ == host_work_dir_mount_view(),
{
    "/k3scontainer/hwdm"
}

/// In-container data directory backed by the host data directory.
pub open spec fn container_data_dir_view() -> Seq<char> {
    "/k3scontainer/data"@
}

pub fn container_data_dir() -> (r: &'static str)
    ensures
        r@ == container_data_dir_view(),
{
    "/k3scontainer/data"
}

/// In-container storage path of the nested runtime, backed by the named volume.
pub open spec fn docker_dir_view() -> Seq<char> {
    "/var/lib/docker"@
}

pub fn docker_dir() -> (r: &'static str)
    ensures
        r@ == docker_dir_view(),
{
    "/var/lib/docker"
}

/// Built-in default build specification, written to the build file the first
/// time it is found empty.
pub open spec fn default_build_spec_view() -> Seq<char> {
    "FROM docker:dind\nRUN apk add --no-cache bash curl\n"@
}

pub fn default_build_spec() -> (r: &'static str)
    ensures
        r@ == default_build_spec_view(),
{
    "FROM docker:dind\nRUN apk add --no-cache bash curl\n"
}

/// The state-directory file paths are the two store files and the data
/// directory, all directly under the state directory.
pub proof fn lemma_paths_under_state_dir()
    ensures
        cluster_name_file_view() == state_dir_view() + "/name"@,
        build_file_view() == state_dir_view() + "/Dockerfile"@,
        data_dir_view() == state_dir_view() + "/data"@,
{
    reveal_strlit(".k3scontainer");
    reveal_strlit(".k3scontainer/name");
    reveal_strlit(".k3scontainer/Dockerfile");
    reveal_strlit(".k3scontainer/data");
    reveal_strlit("/name");
    reveal_strlit("/Dockerfile");
    reveal_strlit("/data");
    assert(cluster_name_file_view() =~= state_dir_view() + "/name"@);
    assert(build_file_view() =~= state_dir_view() + "/Dockerfile"@);
    assert(data_dir_view() =~= state_dir_view() + "/data"@);
}

} // verus!
